use yazi_plugin::rg::{invocation, program_name, RgOpt};

fn opt(cwd: &str, subject: &str, hidden: bool, rga: bool, args: &[&str]) -> RgOpt {
    RgOpt {
        cwd: cwd.to_string(),
        rga,
        hidden,
        subject: subject.to_string(),
        args: args.iter().map(|a| a.to_string()).collect(),
    }
}

#[test]
fn program_name_selects_the_variant() {
    assert_eq!(program_name(false), "rg");
    assert_eq!(program_name(true), "rga");
}

#[test]
fn invocation_order_is_fixed() {
    let v = invocation(&opt("/repo", "TODO", false, false, &["-g", "*.rs"]));
    assert_eq!(
        v,
        vec![
            "--color=never",
            "--files-with-matches",
            "--smart-case",
            "--no-hidden",
            "-g",
            "*.rs",
            "TODO",
            "/repo",
        ]
    );
}

#[test]
fn hidden_flag_include_form() {
    let v = invocation(&opt("/repo", "x", true, false, &[]));
    assert_eq!(v[3], "--hidden");
    assert_eq!(v.iter().filter(|a| *a == "--no-hidden").count(), 0);
}

#[test]
fn hidden_flag_exclude_form() {
    let v = invocation(&opt("/repo", "x", false, false, &[]));
    assert_eq!(v[3], "--no-hidden");
    assert_eq!(v.iter().filter(|a| *a == "--hidden").count(), 0);
}

#[test]
fn hidden_flag_never_absent() {
    for hidden in [false, true] {
        let v = invocation(&opt("/r", "", hidden, true, &[]));
        let n = v
            .iter()
            .filter(|a| *a == "--hidden" || *a == "--no-hidden")
            .count();
        assert_eq!(n, 1);
    }
}

#[test]
fn empty_subject_and_no_extra_args() {
    let v = invocation(&opt("/srv", "", false, false, &[]));
    assert_eq!(
        v,
        vec![
            "--color=never",
            "--files-with-matches",
            "--smart-case",
            "--no-hidden",
            "",
            "/srv",
        ]
    );
}

#[test]
fn extra_args_kept_verbatim_in_order() {
    let v = invocation(&opt("/a", "p", true, true, &["--max-depth", "2", "-tpy"]));
    assert_eq!(&v[4..7], &["--max-depth", "2", "-tpy"]);
    assert_eq!(v[7], "p");
    assert_eq!(v[8], "/a");
}
