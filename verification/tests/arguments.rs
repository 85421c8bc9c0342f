use ln_cmd::{force_symlink, ln, BackupControl, Invocation, LnOptions};

const POLICIES: [(BackupControl, &str); 8] = [
    (BackupControl::NoBackup, "none"),
    (BackupControl::Off, "off"),
    (BackupControl::Numbered, "numbered"),
    (BackupControl::T, "t"),
    (BackupControl::Existing, "existing"),
    (BackupControl::Nil, "nil"),
    (BackupControl::Simple, "simple"),
    (BackupControl::Never, "never"),
];

fn option_args(opts: &LnOptions) -> Vec<String> {
    let mut args = Vec::new();
    opts.push_args(&mut args);
    args.into_iter().map(|word| word.to_string()).collect()
}

#[test]
fn default_options_have_nothing_set() {
    let opts = LnOptions::default();
    assert!(opts.backup.is_none());
    assert!(!opts.make_backup);
    assert!(!opts.directory);
    assert!(!opts.force);
    assert!(!opts.logical);
    assert!(!opts.no_dereference);
    assert!(!opts.physical);
    assert!(!opts.relative);
    assert!(!opts.symbolic);
    assert!(opts.suffix.is_none());
    assert!(opts.target_directory.is_none());
    assert!(!opts.no_target_directory);
}

#[test]
fn no_options_give_no_flags() {
    let inv = ln(&["a", "b", "c"], Some("dir"), None, None);
    assert_eq!(inv.program, "/usr/bin/env");
    assert_eq!(inv.args, vec!["ln", "a", "b", "c", "dir"]);
    assert_eq!(inv.workdir, None);
}

#[test]
fn unset_options_give_no_flags() {
    let opts = LnOptions::default();
    assert!(option_args(&opts).is_empty());
    let inv = ln(&["a", "b", "c"], Some("dir"), Some(&opts), None);
    assert_eq!(inv.args, vec!["ln", "a", "b", "c", "dir"]);
    let inv = ln(&["a"], None, Some(&opts), None);
    assert_eq!(inv.args, vec!["ln", "a"]);
}

#[test]
fn targets_keep_their_order() {
    let inv = ln(&["z", "a", "m", "a"], None, None, None);
    assert_eq!(inv.args, vec!["ln", "z", "a", "m", "a"]);
}

#[test]
fn no_targets_and_no_destination_give_the_bare_utility() {
    let none: [&str; 0] = [];
    let inv = ln(&none, None, None, None);
    assert_eq!(inv.args, vec!["ln"]);
    let inv = ln(&none, Some("dst"), None, None);
    assert_eq!(inv.args, vec!["ln", "dst"]);
}

#[test]
fn backup_control_names() {
    for (control, name) in POLICIES {
        assert_eq!(control.name(), name);
    }
}

#[test]
fn backup_control_flags() {
    assert_eq!(BackupControl::NoBackup.flag(), "--backup=none");
    assert_eq!(BackupControl::Off.flag(), "--backup=off");
    assert_eq!(BackupControl::Numbered.flag(), "--backup=numbered");
    assert_eq!(BackupControl::T.flag(), "--backup=t");
    assert_eq!(BackupControl::Existing.flag(), "--backup=existing");
    assert_eq!(BackupControl::Nil.flag(), "--backup=nil");
    assert_eq!(BackupControl::Simple.flag(), "--backup=simple");
    assert_eq!(BackupControl::Never.flag(), "--backup=never");
    for (control, name) in POLICIES {
        assert_eq!(control.flag(), format!("--backup={}", name));
    }
}

#[test]
fn a_named_backup_policy_overrides_the_short_flag() {
    for (control, name) in POLICIES {
        for make_backup in [false, true] {
            let opts = LnOptions { backup: Some(control), make_backup, ..LnOptions::default() };
            let inv = ln(&["a"], Some("b"), Some(&opts), None);
            let flag = format!("--backup={}", name);
            assert_eq!(inv.args, vec!["ln", flag.as_str(), "a", "b"]);
            let named = inv.args.iter().filter(|word| word.starts_with("--backup=")).count();
            assert_eq!(named, 1);
            assert!(!inv.args.contains(&"-b"));
        }
    }
}

#[test]
fn a_named_backup_policy_stands_before_every_other_flag() {
    let opts = LnOptions {
        backup: Some(BackupControl::Existing),
        make_backup: true,
        force: true,
        symbolic: true,
        suffix: Some(".bak"),
        ..LnOptions::default()
    };
    assert_eq!(option_args(&opts), vec!["--backup=existing", "-f", "-s", "-S", ".bak"]);
}

#[test]
fn make_backup_alone_gives_the_short_flag() {
    let opts = LnOptions { make_backup: true, ..LnOptions::default() };
    assert_eq!(option_args(&opts), vec!["-b"]);
    let inv = ln(&["a"], Some("b"), Some(&opts), None);
    assert_eq!(inv.args, vec!["ln", "-b", "a", "b"]);
    assert!(!inv.args.iter().any(|word| word.starts_with("--backup=")));
}

#[test]
fn each_switch_gives_its_own_flag() {
    let cases = [
        (LnOptions { directory: true, ..LnOptions::default() }, "-d"),
        (LnOptions { force: true, ..LnOptions::default() }, "-f"),
        (LnOptions { logical: true, ..LnOptions::default() }, "-L"),
        (LnOptions { no_dereference: true, ..LnOptions::default() }, "-n"),
        (LnOptions { physical: true, ..LnOptions::default() }, "-P"),
        (LnOptions { relative: true, ..LnOptions::default() }, "-r"),
        (LnOptions { symbolic: true, ..LnOptions::default() }, "-s"),
        (LnOptions { no_target_directory: true, ..LnOptions::default() }, "-T"),
    ];
    for (opts, flag) in cases {
        assert_eq!(option_args(&opts), vec![flag]);
        let inv = ln(&["a"], Some("b"), Some(&opts), None);
        assert_eq!(inv.args, vec!["ln", flag, "a", "b"]);
    }
}

#[test]
fn suffix_is_a_flag_and_a_separate_value() {
    let opts = LnOptions { suffix: Some("~"), ..LnOptions::default() };
    assert_eq!(option_args(&opts), vec!["-S", "~"]);
    let inv = ln(&["a"], Some("b"), Some(&opts), None);
    assert_eq!(inv.args, vec!["ln", "-S", "~", "a", "b"]);
    assert!(!inv.args.contains(&"-S~"));
}

#[test]
fn target_directory_is_a_flag_and_a_separate_value() {
    let opts = LnOptions { target_directory: Some("/srv/links"), ..LnOptions::default() };
    assert_eq!(option_args(&opts), vec!["-t", "/srv/links"]);
    let inv = ln(&["a", "b"], None, Some(&opts), None);
    assert_eq!(inv.args, vec!["ln", "-t", "/srv/links", "a", "b"]);
    assert!(!inv.args.contains(&"-t/srv/links"));
}

#[test]
fn suffix_and_target_directory_together() {
    let opts = LnOptions {
        suffix: Some(".orig"),
        target_directory: Some("dir with spaces"),
        ..LnOptions::default()
    };
    assert_eq!(option_args(&opts), vec!["-S", ".orig", "-t", "dir with spaces"]);
}

#[test]
fn values_are_handed_on_as_they_are() {
    let opts = LnOptions { suffix: Some("-b"), target_directory: Some(""), ..LnOptions::default() };
    let inv = ln(&["--backup=none", "-f"], Some("-T"), Some(&opts), None);
    assert_eq!(inv.args, vec!["ln", "-S", "-b", "-t", "", "--backup=none", "-f", "-T"]);
}

#[test]
fn every_option_in_the_fixed_order() {
    let opts = LnOptions {
        backup: None,
        make_backup: true,
        directory: true,
        force: true,
        logical: true,
        no_dereference: true,
        physical: true,
        relative: true,
        symbolic: true,
        suffix: Some("~"),
        target_directory: Some("dir"),
        no_target_directory: true,
    };
    let inv = ln(&["one", "two"], Some("dst"), Some(&opts), Some("/tmp"));
    assert_eq!(
        inv.args,
        vec![
            "ln", "-b", "-d", "-f", "-L", "-n", "-P", "-r", "-s", "-S", "~", "-t", "dir", "-T",
            "one", "two", "dst",
        ]
    );
    let named = LnOptions { backup: Some(BackupControl::Numbered), ..opts };
    let inv = ln(&["one", "two"], Some("dst"), Some(&named), Some("/tmp"));
    assert_eq!(
        inv.args,
        vec![
            "ln", "--backup=numbered", "-d", "-f", "-L", "-n", "-P", "-r", "-s", "-S", "~", "-t",
            "dir", "-T", "one", "two", "dst",
        ]
    );
}

#[test]
fn contradictory_options_pass_through() {
    let opts = LnOptions {
        directory: true,
        logical: true,
        physical: true,
        symbolic: true,
        target_directory: Some("dir"),
        no_target_directory: true,
        ..LnOptions::default()
    };
    assert_eq!(option_args(&opts), vec!["-d", "-L", "-P", "-s", "-t", "dir", "-T"]);
}

#[test]
fn workdir_is_kept_and_leaves_the_arguments_alone() {
    let opts = LnOptions { symbolic: true, ..LnOptions::default() };
    let here = ln(&["a"], Some("b"), Some(&opts), None);
    let there = ln(&["a"], Some("b"), Some(&opts), Some("/var/tmp"));
    assert_eq!(here.workdir, None);
    assert_eq!(there.workdir, Some("/var/tmp"));
    assert_eq!(here.args, there.args);
    assert_eq!(here.program, there.program);
}

#[test]
fn push_args_appends_behind_what_is_there() {
    let opts = LnOptions { force: true, suffix: Some("~"), ..LnOptions::default() };
    let mut args = vec!["first", "second"];
    opts.push_args(&mut args);
    assert_eq!(args, vec!["first", "second", "-f", "-S", "~"]);
    LnOptions::default().push_args(&mut args);
    assert_eq!(args, vec!["first", "second", "-f", "-S", "~"]);
}

#[test]
fn force_symlink_is_ln_with_force_and_symbolic() {
    let opts = LnOptions { force: true, symbolic: true, ..LnOptions::default() };
    for (src, dst) in [("1.txt", "some.txt"), ("", ""), ("-s", "-f"), ("a b", "ü/ß")] {
        let short: Invocation = force_symlink(src, dst);
        let long: Invocation = ln(&[src], Some(dst), Some(&opts), None);
        assert_eq!(short, long);
        assert_eq!(short.args, vec!["ln", "-f", "-s", src, dst]);
    }
}
