//! Presets applied to the option snapshot, in the order requested.

use presets::cli::{Opt, StringOption};
use presets::git_config::GitConfig;
use presets::preset::{
    builtin_preset, collect_preset, make_builtin_presets, BuiltinPreset, Fallback,
};
use presets::resolve::{apply_preset, apply_presets};

fn initial_opt() -> Opt {
    Opt {
        minus_style: "normal auto".to_string(),
        minus_non_emph_style: "minus-style".to_string(),
        minus_emph_style: "normal auto".to_string(),
        zero_style: "syntax normal".to_string(),
        plus_style: "syntax auto".to_string(),
        plus_non_emph_style: "plus-style".to_string(),
        plus_emph_style: "syntax auto".to_string(),
        commit_style: "raw".to_string(),
        commit_decoration_style: "".to_string(),
        file_style: "blue".to_string(),
        file_decoration_style: "blue ul".to_string(),
        hunk_header_style: "syntax".to_string(),
        hunk_header_decoration_style: "blue box".to_string(),
    }
}

fn names(preset_names: &[&str]) -> Vec<String> {
    preset_names.iter().map(|name| name.to_string()).collect()
}

fn config(entries: &[(&str, &str)]) -> Option<GitConfig> {
    let mut git_config = GitConfig::new();
    for (key, value) in entries {
        git_config.set(key, value);
    }
    Some(git_config)
}

fn fixed_preset(values: &[(&'static str, &str)]) -> BuiltinPreset<String> {
    collect_preset(builtin_preset(
        values
            .iter()
            .map(|(option_name, value)| (*option_name, None, Fallback::Fixed(value.to_string())))
            .collect(),
    ))
}

fn resolve(preset_names: &[&str], git_config: &Option<GitConfig>) -> Opt {
    let mut opt = initial_opt();
    apply_presets(&mut opt, &names(preset_names), &make_builtin_presets(), git_config);
    opt
}

#[test]
fn no_preset_changes_nothing() {
    assert_eq!(resolve(&[], &None), initial_opt());
    assert_eq!(resolve(&[], &config(&[("color.diff.old", "red bold")])), initial_opt());
}

#[test]
fn diff_highlight_sets_minus_style_to_red() {
    assert_eq!(resolve(&["diff-highlight"], &None).minus_style, "red");
}

#[test]
fn diff_so_fancy_sets_minus_style_to_bold_red() {
    assert_eq!(resolve(&["diff-so-fancy"], &None).minus_style, "bold red");
}

#[test]
fn diff_highlight_without_configuration() {
    let mut expected = initial_opt();
    expected.minus_style = "red".to_string();
    expected.minus_non_emph_style = "red".to_string();
    expected.minus_emph_style = "red reverse".to_string();
    expected.zero_style = "normal".to_string();
    expected.plus_style = "green".to_string();
    expected.plus_non_emph_style = "green".to_string();
    expected.plus_emph_style = "green reverse".to_string();
    assert_eq!(resolve(&["diff-highlight"], &None), expected);
}

#[test]
fn diff_so_fancy_without_configuration() {
    let expected = Opt {
        minus_style: "bold red".to_string(),
        minus_non_emph_style: "bold red".to_string(),
        minus_emph_style: "bold red reverse".to_string(),
        zero_style: "normal".to_string(),
        plus_style: "bold green".to_string(),
        plus_non_emph_style: "bold green".to_string(),
        plus_emph_style: "bold green reverse".to_string(),
        commit_style: "bold yellow".to_string(),
        commit_decoration_style: "none".to_string(),
        file_style: "11".to_string(),
        file_decoration_style: "bold yellow ul ol".to_string(),
        hunk_header_style: "bold syntax".to_string(),
        hunk_header_decoration_style: "magenta box".to_string(),
    };
    assert_eq!(resolve(&["diff-so-fancy"], &None), expected);
}

#[test]
fn configured_old_color_becomes_minus_style() {
    let git_config = config(&[("color.diff.old", "red bold")]);
    assert_eq!(resolve(&["diff-highlight"], &git_config).minus_style, "red bold");
}

#[test]
fn emphasis_follows_a_configured_minus_style() {
    let git_config = config(&[("color.diff.old", "red bold")]);
    let opt = resolve(&["diff-highlight"], &git_config);
    assert_eq!(opt.minus_style, "red bold");
    assert_eq!(opt.minus_non_emph_style, "red bold");
    assert_eq!(opt.minus_emph_style, "red bold reverse");
}

#[test]
fn emphasis_follows_a_configured_plus_style() {
    let git_config = config(&[("color.diff.new", "green bold")]);
    let opt = resolve(&["diff-so-fancy"], &git_config);
    assert_eq!(opt.plus_style, "green bold");
    assert_eq!(opt.plus_non_emph_style, "green bold");
    assert_eq!(opt.plus_emph_style, "green bold reverse");
    assert_eq!(opt.minus_emph_style, "bold red reverse");
}

#[test]
fn configured_highlight_wins_as_it_stands() {
    let git_config = config(&[
        ("color.diff.old", "red bold"),
        ("color.diff-highlight.oldHighlight", "red bold 52"),
    ]);
    let opt = resolve(&["diff-highlight"], &git_config);
    assert_eq!(opt.minus_style, "red bold");
    assert_eq!(opt.minus_emph_style, "red bold 52");
}

#[test]
fn configured_highlight_does_not_touch_the_other_styles() {
    let git_config = config(&[("color.diff-highlight.oldHighlight", "red bold 52")]);
    let opt = resolve(&["diff-highlight"], &git_config);
    assert_eq!(opt.minus_style, "red");
    assert_eq!(opt.minus_non_emph_style, "red");
    assert_eq!(opt.minus_emph_style, "red bold 52");
    assert_eq!(opt.plus_emph_style, "green reverse");
}

#[test]
fn diff_so_fancy_takes_file_and_hunk_header_styles_from_the_configuration() {
    let git_config = config(&[
        ("color.diff.meta", "11"),
        ("color.diff.frag", "magenta bold"),
        ("color.diff.commit", "yellow bold"),
        ("color.diff.old", "red bold"),
        ("color.diff.new", "green bold"),
        ("color.diff.whitespace", "red reverse"),
    ]);
    let opt = resolve(&["diff-so-fancy", "some-other-preset"], &git_config);
    assert_eq!(opt.commit_style, "bold yellow");
    assert_eq!(opt.commit_decoration_style, "none");
    assert_eq!(opt.file_style, "11");
    assert_eq!(opt.file_decoration_style, "bold yellow ul ol");
    assert_eq!(opt.hunk_header_style, "magenta bold");
    assert_eq!(opt.hunk_header_decoration_style, "magenta box");
    assert_eq!(opt.minus_style, "red bold");
    assert_eq!(opt.plus_emph_style, "green bold reverse");
}

#[test]
fn a_preset_leaves_the_options_that_it_does_not_set() {
    let opt = resolve(&["diff-highlight"], &None);
    let before = initial_opt();
    assert_eq!(opt.commit_style, before.commit_style);
    assert_eq!(opt.commit_decoration_style, before.commit_decoration_style);
    assert_eq!(opt.file_style, before.file_style);
    assert_eq!(opt.file_decoration_style, before.file_decoration_style);
    assert_eq!(opt.hunk_header_style, before.hunk_header_style);
    assert_eq!(opt.hunk_header_decoration_style, before.hunk_header_decoration_style);
}

#[test]
fn the_later_builtin_preset_wins() {
    let opt = resolve(&["diff-highlight", "diff-so-fancy"], &None);
    assert_eq!(opt.minus_style, "bold red");
    assert_eq!(opt.plus_emph_style, "bold green reverse");
    assert_eq!(opt, resolve(&["diff-so-fancy"], &None));

    let opt = resolve(&["diff-so-fancy", "diff-highlight"], &None);
    assert_eq!(opt.minus_style, "red");
    assert_eq!(opt.plus_emph_style, "green reverse");
    assert_eq!(opt.commit_style, "bold yellow");
}

#[test]
fn the_later_of_two_presets_wins_for_every_shared_option() {
    let mut presets = make_builtin_presets();
    presets.insert(
        "decorations".to_string(),
        fixed_preset(&[
            ("commit-decoration-style", "bold box ul"),
            ("file-style", "bold 19 ul"),
            ("file-decoration-style", "none"),
        ]),
    );
    let git_config = config(&[("color.diff.meta", "11")]);

    let mut opt = initial_opt();
    apply_presets(&mut opt, &names(&["decorations", "diff-so-fancy"]), &presets, &git_config);
    assert_eq!(opt.commit_decoration_style, "none");
    assert_eq!(opt.file_style, "11");
    assert_eq!(opt.file_decoration_style, "bold yellow ul ol");

    let mut opt = initial_opt();
    apply_presets(&mut opt, &names(&["diff-so-fancy", "decorations"]), &presets, &git_config);
    assert_eq!(opt.commit_decoration_style, "bold box ul");
    assert_eq!(opt.file_style, "bold 19 ul");
    assert_eq!(opt.file_decoration_style, "none");
    assert_eq!(opt.commit_style, "bold yellow");
}

#[test]
fn a_preset_named_twice_is_applied_twice() {
    assert_eq!(
        resolve(&["diff-highlight", "diff-so-fancy", "diff-highlight"], &None),
        resolve(&["diff-so-fancy", "diff-highlight"], &None)
    );
}

#[test]
fn unknown_names_are_passed_over_wherever_they_stand() {
    let git_config = config(&[("color.diff.old", "red bold")]);
    let expected = resolve(&["diff-highlight", "diff-so-fancy"], &git_config);
    for preset_names in [
        vec!["my-preset-x", "diff-highlight", "diff-so-fancy"],
        vec!["diff-highlight", "diff-so-fancy", "my-preset-x"],
        vec!["diff-highlight", "my-preset-x", "diff-so-fancy"],
        vec!["my-preset-x", "diff-highlight", "", "diff-so-fancy", "Diff-Highlight"],
        vec!["x", "x", "diff-highlight", "x", "diff-so-fancy", "x", "x"],
    ] {
        assert_eq!(resolve(&preset_names, &git_config), expected);
    }
}

#[test]
fn unknown_names_alone_change_nothing() {
    assert_eq!(resolve(&["my-preset-x"], &None), initial_opt());
    assert_eq!(resolve(&["my-preset-x", "my-preset-y"], &None), initial_opt());
    assert_eq!(resolve(&["DIFF-HIGHLIGHT"], &None), initial_opt());
}

#[test]
fn a_derived_option_reads_what_an_earlier_preset_set() {
    let mut presets = make_builtin_presets();
    presets.insert("my-base".to_string(), fixed_preset(&[("minus-style", "blue")]));
    presets.insert(
        "my-emphasis".to_string(),
        collect_preset(builtin_preset(vec![(
            "minus-emph-style",
            None,
            Fallback::Modified(StringOption::MinusStyle, "ul".to_string()),
        )])),
    );

    let mut opt = initial_opt();
    apply_presets(&mut opt, &names(&["my-base", "my-emphasis"]), &presets, &None);
    assert_eq!(opt.minus_style, "blue");
    assert_eq!(opt.minus_emph_style, "blue ul");

    let mut opt = initial_opt();
    apply_presets(&mut opt, &names(&["my-emphasis", "my-base"]), &presets, &None);
    assert_eq!(opt.minus_style, "blue");
    assert_eq!(opt.minus_emph_style, "normal auto ul");
}

#[test]
fn an_option_is_resolved_after_the_option_that_it_reads() {
    let preset = collect_preset(builtin_preset(vec![
        (
            "plus-emph-style",
            None,
            Fallback::Modified(StringOption::PlusStyle, "reverse".to_string()),
        ),
        ("plus-non-emph-style", None, Fallback::ValueOf(StringOption::PlusStyle)),
        ("plus-style", None, Fallback::Fixed("green".to_string())),
    ]));
    let mut opt = initial_opt();
    apply_preset(&mut opt, &preset, &None);
    assert_eq!(opt.plus_style, "green");
    assert_eq!(opt.plus_non_emph_style, "green");
    assert_eq!(opt.plus_emph_style, "green reverse");
}

#[test]
fn a_preset_does_not_set_what_no_option_is_named() {
    let preset = fixed_preset(&[("tabs", "4"), ("minus_style", "blue"), ("zero-style", "dim")]);
    let mut opt = initial_opt();
    apply_preset(&mut opt, &preset, &None);
    let mut expected = initial_opt();
    expected.zero_style = "dim".to_string();
    assert_eq!(opt, expected);
}

#[test]
fn applying_one_preset_is_applying_its_name() {
    let builtin_presets = make_builtin_presets();
    let git_config = config(&[("color.diff.frag", "magenta bold")]);
    let mut opt = initial_opt();
    apply_preset(&mut opt, builtin_presets.get("diff-so-fancy").unwrap(), &git_config);
    assert_eq!(opt, resolve(&["diff-so-fancy"], &git_config));
}

#[test]
fn a_builtin_preset_sets_the_same_values_on_any_snapshot() {
    let git_config = config(&[("color.diff.old", "red bold")]);
    let from_defaults = resolve(&["diff-so-fancy"], &git_config);
    let mut opt = resolve(&["diff-highlight"], &None);
    opt.minus_style = "blue".to_string();
    opt.hunk_header_style = "dim".to_string();
    apply_presets(&mut opt, &names(&["diff-so-fancy"]), &make_builtin_presets(), &git_config);
    assert_eq!(opt, from_defaults);
}
