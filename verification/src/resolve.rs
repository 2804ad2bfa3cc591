//! Applying presets to the option snapshot.
//!
//! Presets are applied in the order in which they are requested. A preset sets
//! each option for which it holds a value function, in resolution order, to the
//! function's value on the snapshot as it stands at that moment. A name that is
//! not the name of a preset is passed over.

use crate::cli::{Opt, OptView, StringOption};
use crate::git_config::{config_view, GitConfig, GitConfigView};
use crate::preset::{
    builtin_presets, lemma_builtin_presets, lemma_builtin_presets_read_earlier_options,
    lemma_diff_highlight_preset, lemma_diff_so_fancy_preset, option_is_set, option_read,
    preset_view, presets_view, reads_earlier_options, reads_own_options, BuiltinPreset,
    GetValueFunctionFromBuiltinPreset, PresetView, PresetsView,
};
use vstd::hash_map::StringHashMap;
use vstd::prelude::*;

verus! {

/// The snapshot after `preset` has set those of `options` that it sets, one
/// after the other, each to the value of its function on the snapshot as the
/// options before it have left it.
pub open spec fn after_options(
    opt: OptView,
    preset: PresetView,
    git_config: Option<GitConfigView>,
    options: Seq<StringOption>,
) -> OptView
    decreases options.len(),
{
    if options.len() == 0 {
        opt
    } else {
        let before = after_options(opt, preset, git_config, options.drop_last());
        let option = options.last();
        if option_is_set(preset, option) {
            before.insert(option, preset[option.spec_name()].value(before, git_config))
        } else {
            before
        }
    }
}

/// The snapshot after `preset` has been applied to `opt`.
pub open spec fn after_preset(
    opt: OptView,
    preset: PresetView,
    git_config: Option<GitConfigView>,
) -> OptView {
    after_options(opt, preset, git_config, StringOption::spec_all())
}

/// The snapshot in which `preset` finds `option` when it is applied to `opt`:
/// the options before `option` in resolution order have been set.
pub open spec fn before_option(
    opt: OptView,
    preset: PresetView,
    git_config: Option<GitConfigView>,
    option: StringOption,
) -> OptView {
    after_options(opt, preset, git_config, StringOption::spec_all().take(option.spec_index()))
}

/// The value to which `preset` sets `option` when it is applied to `opt`: that
/// of the option's value function on the snapshot in which the preset finds
/// the option.
pub open spec fn value_from_preset(
    opt: OptView,
    preset: PresetView,
    git_config: Option<GitConfigView>,
    option: StringOption,
) -> Seq<char> {
    preset[option.spec_name()].value(before_option(opt, preset, git_config, option), git_config)
}

/// The snapshot after the presets named by `preset_names` have been applied to
/// `opt`, first to last. A name that `presets` does not hold changes nothing.
pub open spec fn after_presets(
    opt: OptView,
    preset_names: Seq<Seq<char>>,
    presets: PresetsView,
    git_config: Option<GitConfigView>,
) -> OptView
    decreases preset_names.len(),
{
    if preset_names.len() == 0 {
        opt
    } else {
        let before = after_presets(opt, preset_names.drop_last(), presets, git_config);
        if presets.contains_key(preset_names.last()) {
            after_preset(before, presets[preset_names.last()], git_config)
        } else {
            before
        }
    }
}

/// Applies `builtin_preset` to `opt`: sets each option under whose name the
/// preset holds a value function to the function's value, the options taken in
/// resolution order. A value function held under a name that is no option's
/// name is not used.
pub fn apply_preset(
    opt: &mut Opt,
    builtin_preset: &BuiltinPreset<String>,
    git_config: &Option<GitConfig>,
)
    ensures
        final(opt)@ == after_preset(
            old(opt)@,
            preset_view(builtin_preset),
            config_view(git_config),
        ),
{
    let options = StringOption::all();
    let mut i: usize = 0;
    while i < options.len()
        invariant
            i <= options.len(),
            options@ == StringOption::spec_all(),
            opt@ == after_options(
                old(opt)@,
                preset_view(builtin_preset),
                config_view(git_config),
                options@.take(i as int),
            ),
        decreases options.len() - i,
    {
        let option = options[i];
        match String::get_value_function_from_builtin_preset(option.name(), builtin_preset) {
            Some(function) => {
                let value = function.call(opt, git_config);
                opt.set(option, value);
            },
            None => {},
        }
        assert(options@.take(i + 1).drop_last() =~= options@.take(i as int));
        i += 1;
    }
    assert(options@.take(options.len() as int) =~= options@);
}

/// Applies the presets named by `preset_names` to `opt`, first to last, so that
/// where two of them set one option the later one decides. A name that
/// `builtin_presets` does not hold is passed over.
pub fn apply_presets(
    opt: &mut Opt,
    preset_names: &Vec<String>,
    builtin_presets: &StringHashMap<BuiltinPreset<String>>,
    git_config: &Option<GitConfig>,
)
    ensures
        final(opt)@ == after_presets(
            old(opt)@,
            preset_names.deep_view(),
            presets_view(builtin_presets),
            config_view(git_config),
        ),
{
    let ghost names = preset_names.deep_view();
    let mut i: usize = 0;
    while i < preset_names.len()
        invariant
            i <= preset_names.len(),
            names == preset_names.deep_view(),
            opt@ == after_presets(
                old(opt)@,
                names.take(i as int),
                presets_view(builtin_presets),
                config_view(git_config),
            ),
        decreases preset_names.len() - i,
    {
        match builtin_presets.get(preset_names[i].as_str()) {
            Some(builtin_preset) => apply_preset(opt, builtin_preset, git_config),
            None => {},
        }
        assert(names[i as int] == preset_names@[i as int]@);
        assert(names.take(i + 1).drop_last() =~= names.take(i as int));
        i += 1;
    }
    assert(names.take(names.len() as int) =~= names);
}

/// Applying a preset leaves an option that the preset does not set as it was,
/// and sets any other option once, to the value of its function on the snapshot
/// in which the preset finds the option.
pub proof fn lemma_preset_sets_each_option_once(
    opt: OptView,
    preset: PresetView,
    git_config: Option<GitConfigView>,
    option: StringOption,
)
    ensures
        after_preset(opt, preset, git_config)[option] == if option_is_set(preset, option) {
            value_from_preset(opt, preset, git_config, option)
        } else {
            opt[option]
        },
{
    let all = StringOption::spec_all();
    assert(all.take(all.len() as int) =~= all);
    lemma_options_are_set_once(opt, preset, git_config, option, all.len() as int);
}

/// Once the first `count` options in resolution order have been dealt with, an
/// option among them that the preset sets has the function's value on the
/// snapshot in which the preset found it, and any other option is as it was.
proof fn lemma_options_are_set_once(
    opt: OptView,
    preset: PresetView,
    git_config: Option<GitConfigView>,
    option: StringOption,
    count: int,
)
    requires
        0 <= count <= StringOption::spec_all().len(),
    ensures
        after_options(opt, preset, git_config, StringOption::spec_all().take(count))[option]
            == if option.spec_index() < count && option_is_set(preset, option) {
            value_from_preset(opt, preset, git_config, option)
        } else {
            opt[option]
        },
    decreases count,
{
    let all = StringOption::spec_all();
    option.lemma_all_holds_each_option_once();
    if count > 0 {
        assert(all.take(count).drop_last() =~= all.take(count - 1));
        lemma_options_are_set_once(opt, preset, git_config, option, count - 1);
    }
}

/// Where the value functions of a preset read only options that come before
/// their own, each option that the preset sets ends with the value that its
/// function has on the snapshot as the preset leaves it: an option derived from
/// another follows the value to which that other option resolves.
pub proof fn lemma_resolved_values_agree_with_functions(
    opt: OptView,
    preset: PresetView,
    git_config: Option<GitConfigView>,
    option: StringOption,
)
    requires
        reads_earlier_options(preset),
        option_is_set(preset, option),
    ensures
        after_preset(opt, preset, git_config)[option] == preset[option.spec_name()].value(
            after_preset(opt, preset, git_config),
            git_config,
        ),
{
    let all = StringOption::spec_all();
    lemma_preset_sets_each_option_once(opt, preset, git_config, option);
    match option_read(preset, option) {
        Some(read) => {
            option.lemma_all_holds_each_option_once();
            assert(all.take(all.len() as int) =~= all);
            lemma_options_are_set_once(opt, preset, git_config, read, option.spec_index());
            lemma_options_are_set_once(opt, preset, git_config, read, all.len() as int);
        },
        None => {},
    }
}

/// Where the value functions of a preset read only options that come before
/// their own and that the preset sets too, what the preset sets does not depend
/// on the snapshot to which it is applied.
pub proof fn lemma_preset_decides_alone(
    opt: OptView,
    other_opt: OptView,
    preset: PresetView,
    git_config: Option<GitConfigView>,
    option: StringOption,
)
    requires
        reads_earlier_options(preset),
        reads_own_options(preset),
        option_is_set(preset, option),
    ensures
        after_preset(opt, preset, git_config)[option] == after_preset(
            other_opt,
            preset,
            git_config,
        )[option],
    decreases option.spec_index(),
{
    lemma_resolved_values_agree_with_functions(opt, preset, git_config, option);
    lemma_resolved_values_agree_with_functions(other_opt, preset, git_config, option);
    match option_read(preset, option) {
        Some(read) => {
            read.lemma_all_holds_each_option_once();
            lemma_preset_decides_alone(opt, other_opt, preset, git_config, read);
        },
        None => {},
    }
}

/// Applying the presets named by two lists, one list after the other, is
/// applying those named by the lists joined.
pub proof fn lemma_joined_names(
    opt: OptView,
    first_names: Seq<Seq<char>>,
    later_names: Seq<Seq<char>>,
    presets: PresetsView,
    git_config: Option<GitConfigView>,
)
    ensures
        after_presets(opt, first_names + later_names, presets, git_config) == after_presets(
            after_presets(opt, first_names, presets, git_config),
            later_names,
            presets,
            git_config,
        ),
    decreases later_names.len(),
{
    if later_names.len() == 0 {
        assert(first_names + later_names =~= first_names);
    } else {
        assert((first_names + later_names).drop_last() =~= first_names + later_names.drop_last());
        lemma_joined_names(opt, first_names, later_names.drop_last(), presets, git_config);
    }
}

/// The preset applied last decides: an option that the preset named last sets
/// ends with the value from that preset, whichever presets were applied before
/// it.
pub proof fn lemma_last_preset_decides(
    opt: OptView,
    earlier_names: Seq<Seq<char>>,
    last_name: Seq<char>,
    presets: PresetsView,
    git_config: Option<GitConfigView>,
    option: StringOption,
)
    requires
        presets.contains_key(last_name),
        option_is_set(presets[last_name], option),
    ensures
        after_presets(opt, earlier_names.push(last_name), presets, git_config)[option]
            == value_from_preset(
            after_presets(opt, earlier_names, presets, git_config),
            presets[last_name],
            git_config,
            option,
        ),
{
    assert(earlier_names.push(last_name).drop_last() =~= earlier_names);
    lemma_preset_sets_each_option_once(
        after_presets(opt, earlier_names, presets, git_config),
        presets[last_name],
        git_config,
        option,
    );
}

/// Of two presets that both set an option, the one applied second decides the
/// option's value.
pub proof fn lemma_second_of_two_presets_decides(
    opt: OptView,
    first_name: Seq<char>,
    second_name: Seq<char>,
    presets: PresetsView,
    git_config: Option<GitConfigView>,
    option: StringOption,
)
    requires
        presets.contains_key(first_name),
        presets.contains_key(second_name),
        option_is_set(presets[first_name], option),
        option_is_set(presets[second_name], option),
    ensures
        after_presets(opt, seq![first_name, second_name], presets, git_config)[option]
            == value_from_preset(
            after_preset(opt, presets[first_name], git_config),
            presets[second_name],
            git_config,
            option,
        ),
{
    let first = seq![first_name];
    assert(seq![first_name, second_name] =~= first.push(second_name));
    assert(first.drop_last() =~= Seq::<Seq<char>>::empty());
    assert(after_presets(opt, first.drop_last(), presets, git_config) == opt);
    assert(after_presets(opt, first, presets, git_config) == after_preset(
        opt,
        presets[first_name],
        git_config,
    ));
    lemma_last_preset_decides(opt, first, second_name, presets, git_config, option);
}

/// Names that are not names of presets change nothing, wherever they stand in
/// the list: the outcome is that of the list without them.
pub proof fn lemma_unknown_names_change_nothing(
    opt: OptView,
    preset_names: Seq<Seq<char>>,
    presets: PresetsView,
    git_config: Option<GitConfigView>,
)
    ensures
        after_presets(opt, preset_names, presets, git_config) == after_presets(
            opt,
            preset_names.filter(|name: Seq<char>| presets.contains_key(name)),
            presets,
            git_config,
        ),
    decreases preset_names.len(),
{
    reveal(Seq::filter);
    let known = |name: Seq<char>| presets.contains_key(name);
    if preset_names.len() > 0 {
        lemma_unknown_names_change_nothing(opt, preset_names.drop_last(), presets, git_config);
        if known(preset_names.last()) {
            let kept = preset_names.drop_last().filter(known);
            assert(kept.push(preset_names.last()).drop_last() =~= kept);
        }
    }
}

/// One name that is not the name of a preset, anywhere in the list, changes
/// nothing.
pub proof fn lemma_one_unknown_name_changes_nothing(
    opt: OptView,
    earlier_names: Seq<Seq<char>>,
    unknown_name: Seq<char>,
    later_names: Seq<Seq<char>>,
    presets: PresetsView,
    git_config: Option<GitConfigView>,
)
    requires
        !presets.contains_key(unknown_name),
    ensures
        after_presets(
            opt,
            earlier_names + seq![unknown_name] + later_names,
            presets,
            git_config,
        ) == after_presets(opt, earlier_names + later_names, presets, git_config),
{
    let with_unknown = earlier_names + seq![unknown_name];
    assert(with_unknown.drop_last() =~= earlier_names);
    lemma_joined_names(opt, with_unknown, later_names, presets, git_config);
    lemma_joined_names(opt, earlier_names, later_names, presets, git_config);
}

/// The builtin preset named last decides alone: an option that it sets ends
/// with the value that the preset gives it when applied by itself, whichever
/// names come before it and whatever the snapshot held.
pub proof fn lemma_last_builtin_preset_decides_alone(
    opt: OptView,
    other_opt: OptView,
    earlier_names: Seq<Seq<char>>,
    last_name: Seq<char>,
    git_config: Option<GitConfigView>,
    option: StringOption,
)
    requires
        builtin_presets().contains_key(last_name),
        option_is_set(builtin_presets()[last_name], option),
    ensures
        after_presets(opt, earlier_names.push(last_name), builtin_presets(), git_config)[option]
            == after_preset(other_opt, builtin_presets()[last_name], git_config)[option],
{
    assert(earlier_names.push(last_name).drop_last() =~= earlier_names);
    lemma_builtin_presets_read_earlier_options(last_name);
    lemma_preset_decides_alone(
        after_presets(opt, earlier_names, builtin_presets(), git_config),
        other_opt,
        builtin_presets()[last_name],
        git_config,
        option,
    );
}

/// With no configuration, the diff-highlight preset sets `minus-style` to "red"
/// and the diff-so-fancy preset sets it to "bold red", whatever the option held
/// and whichever names come before the preset's.
pub proof fn lemma_minus_style_without_configuration(opt: OptView, earlier_names: Seq<Seq<char>>)
    ensures
        after_presets(opt, earlier_names.push("diff-highlight"@), builtin_presets(), None)[
            StringOption::MinusStyle
        ] == "red"@,
        after_presets(opt, earlier_names.push("diff-so-fancy"@), builtin_presets(), None)[
            StringOption::MinusStyle
        ] == "bold red"@,
{
    let option = StringOption::MinusStyle;
    let presets = builtin_presets();
    lemma_builtin_presets();
    lemma_diff_highlight_preset(false, option);
    lemma_diff_so_fancy_preset(option);
    lemma_last_preset_decides(opt, earlier_names, "diff-highlight"@, presets, None, option);
    lemma_last_preset_decides(opt, earlier_names, "diff-so-fancy"@, presets, None, option);
}

/// Where the configuration sets `color.diff.old`, the diff-highlight preset
/// sets `minus-style` to the configured value, not to its own "red".
pub proof fn lemma_minus_style_from_configuration(
    opt: OptView,
    earlier_names: Seq<Seq<char>>,
    git_config: GitConfigView,
)
    requires
        git_config.contains_key("color.diff.old"@),
    ensures
        after_presets(
            opt,
            earlier_names.push("diff-highlight"@),
            builtin_presets(),
            Some(git_config),
        )[StringOption::MinusStyle] == git_config["color.diff.old"@],
{
    let option = StringOption::MinusStyle;
    let presets = builtin_presets();
    lemma_builtin_presets();
    lemma_diff_highlight_preset(false, option);
    lemma_last_preset_decides(
        opt,
        earlier_names,
        "diff-highlight"@,
        presets,
        Some(git_config),
        option,
    );
}

/// Under the diff-highlight preset, `minus-emph-style` is the value to which
/// `minus-style` resolves, followed by " reverse", unless the configuration
/// sets `color.diff-highlight.oldHighlight`: then it is the configured value as
/// it stands.
pub proof fn lemma_minus_emph_style_follows_minus_style(
    opt: OptView,
    earlier_names: Seq<Seq<char>>,
    git_config: Option<GitConfigView>,
)
    ensures
        ({
            let resolved = after_presets(
                opt,
                earlier_names.push("diff-highlight"@),
                builtin_presets(),
                git_config,
            );
            resolved[StringOption::MinusEmphStyle] == match git_config {
                Some(config) if config.contains_key("color.diff-highlight.oldHighlight"@) => {
                    config["color.diff-highlight.oldHighlight"@]
                },
                _ => resolved[StringOption::MinusStyle] + " reverse"@,
            }
        }),
{
    let option = StringOption::MinusEmphStyle;
    let preset = builtin_presets()["diff-highlight"@];
    let before = after_presets(opt, earlier_names, builtin_presets(), git_config);
    let resolved = after_preset(before, preset, git_config);
    assert(earlier_names.push("diff-highlight"@).drop_last() =~= earlier_names);
    lemma_builtin_presets();
    lemma_builtin_presets_read_earlier_options("diff-highlight"@);
    lemma_diff_highlight_preset(false, option);
    lemma_resolved_values_agree_with_functions(before, preset, git_config, option);
    reveal_strlit(" reverse");
    reveal_strlit("reverse");
    assert(resolved[StringOption::MinusStyle] + seq![' '] + "reverse"@
        =~= resolved[StringOption::MinusStyle] + " reverse"@);
}

} // verus!
