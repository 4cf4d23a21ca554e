use yazi_plugin::runtime::{ArgsCfg, MgrCfg, PreviewCfg, Ratio, Runtime, TasksCfg};

fn sample() -> Runtime {
    Runtime::compose(
        ArgsCfg {
            chooser_file: Some("/tmp/chosen".to_string()),
        },
        MgrCfg {
            ratio: Ratio {
                parent: 1,
                current: 4,
                preview: 3,
            },
            show_symlink: true,
        },
        PreviewCfg {
            wrap: false,
            tab_size: 2,
            max_width: 600,
            max_height: 900,
            image_delay: 30,
            image_quality: 75,
        },
        TasksCfg { image_alloc: 536870912 },
    )
}

#[test]
fn accessors_return_what_was_composed() {
    let rt = sample();
    assert_eq!(
        rt.args().chooser_file.as_deref(),
        Some("/tmp/chosen")
    );
    assert_eq!(
        rt.mgr(),
        MgrCfg {
            ratio: Ratio {
                parent: 1,
                current: 4,
                preview: 3,
            },
            show_symlink: true,
        }
    );
    assert_eq!(rt.preview().tab_size, 2);
    assert_eq!(rt.preview().image_quality, 75);
    assert_eq!(rt.tasks(), TasksCfg { image_alloc: 536870912 });
}

#[test]
fn absent_chooser_file_stays_absent() {
    let rt = Runtime::compose(
        ArgsCfg { chooser_file: None },
        MgrCfg {
            ratio: Ratio {
                parent: 1,
                current: 1,
                preview: 1,
            },
            show_symlink: false,
        },
        PreviewCfg {
            wrap: true,
            tab_size: 8,
            max_width: 0,
            max_height: 0,
            image_delay: 0,
            image_quality: 50,
        },
        TasksCfg { image_alloc: 0 },
    );
    assert_eq!(rt.args().chooser_file, None);
}
