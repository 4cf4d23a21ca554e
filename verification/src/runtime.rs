//! Immutable settings exposed to the scripting layer.
//!
//! The surrounding application exposes a handful of static settings to
//! its scripting layer. Instead of a memoizing string-keyed table built
//! lazily per key, the settings are an explicit immutable configuration
//! struct populated once at startup, with accessors in place of dynamic
//! key dispatch.

use vstd::prelude::*;

verus! {

/// Settings taken from the command line.
#[derive(Clone, Debug, PartialEq, Eq)]
pub struct ArgsCfg {
    /// The file chosen entries are written to, if one was asked for.
    pub chooser_file: Option<String>,
}

/// The manager pane's layout ratio: parent, current and preview columns.
#[derive(Clone, Copy, Debug, PartialEq, Eq, Structural)]
pub struct Ratio {
    /// Width share of the parent column.
    pub parent: u32,
    /// Width share of the current column.
    pub current: u32,
    /// Width share of the preview column.
    pub preview: u32,
}

/// Settings of the file manager pane.
#[derive(Clone, Copy, Debug, PartialEq, Eq, Structural)]
pub struct MgrCfg {
    /// Layout ratio of the three columns.
    pub ratio: Ratio,
    /// Whether symlink targets are shown.
    pub show_symlink: bool,
}

/// Settings of the preview pane.
#[derive(Clone, Copy, Debug, PartialEq, Eq, Structural)]
pub struct PreviewCfg {
    /// Whether long lines are wrapped.
    pub wrap: bool,
    /// Width of one tab stop, in columns.
    pub tab_size: u8,
    /// Largest width a preview image is scaled to.
    pub max_width: u32,
    /// Largest height a preview image is scaled to.
    pub max_height: u32,
    /// Delay before an image preview is started, in milliseconds.
    pub image_delay: u8,
    /// Quality of re-encoded preview images, in percent.
    pub image_quality: u8,
}

/// Settings of the task scheduler.
#[derive(Clone, Copy, Debug, PartialEq, Eq, Structural)]
pub struct TasksCfg {
    /// Memory allowed for image decoding, in bytes.
    pub image_alloc: u32,
}

/// The full set of settings the scripting layer can read.
pub struct Runtime {
    args: ArgsCfg,
    mgr: MgrCfg,
    preview: PreviewCfg,
    tasks: TasksCfg,
}

impl Runtime {
    /// The command-line section.
    pub closed spec fn spec_args(&self) -> ArgsCfg {
        self.args
    }

    /// The manager section.
    pub closed spec fn spec_mgr(&self) -> MgrCfg {
        self.mgr
    }

    /// The preview section.
    pub closed spec fn spec_preview(&self) -> PreviewCfg {
        self.preview
    }

    /// The tasks section.
    pub closed spec fn spec_tasks(&self) -> TasksCfg {
        self.tasks
    }

    /// Composes the runtime settings from their sections, once, at
    /// startup. Nothing is computed on access afterwards.
    pub fn compose(args: ArgsCfg, mgr: MgrCfg, preview: PreviewCfg, tasks: TasksCfg) -> (r:
        Runtime)
        ensures
            r.spec_args() == args,
            r.spec_mgr() == mgr,
            r.spec_preview() == preview,
            r.spec_tasks() == tasks,
    {
        Runtime { args, mgr, preview, tasks }
    }

    /// Reads the command-line section.
    pub fn args(&self) -> (r: &ArgsCfg)
        ensures
            *r == self.spec_args(),
    {
        &self.args
    }

    /// Reads the manager section.
    pub fn mgr(&self) -> (r: MgrCfg)
        ensures
            r == self.spec_mgr(),
    {
        self.mgr
    }

    /// Reads the preview section.
    pub fn preview(&self) -> (r: PreviewCfg)
        ensures
            r == self.spec_preview(),
    {
        self.preview
    }

    /// Reads the tasks section.
    pub fn tasks(&self) -> (r: TasksCfg)
        ensures
            r == self.spec_tasks(),
    {
        self.tasks
    }
}

} // verus!
