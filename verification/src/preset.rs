//! Value functions, presets, and the builtin presets.
//!
//! A preset is a named set of (option, value) pairs. A builtin preset stores
//! each value as a function, so that the value can be taken from the
//! configuration and can depend on the current values of other options.

use crate::cli::{Opt, OptView, StringOption};
use crate::git_config::{config_view, GitConfig, GitConfigView};
use vstd::hash_map::StringHashMap;
use vstd::prelude::*;

verus! {

/// What a value function yields where the configuration does not supply the
/// value.
#[derive(Clone, Debug, PartialEq, Eq)]
pub enum Fallback<T> {
    /// A fixed value.
    Fixed(T),
    /// The current value of another option.
    ValueOf(StringOption),
    /// The current value of another option, followed by a space and a modifier.
    Modified(StringOption, String),
}

/// Computes the value of one option from the snapshot of the options resolved
/// so far and an optional configuration.
///
/// Where a configuration is given, the function declares a key and the key is
/// set, the value is the configured one. Otherwise it is the fallback's.
#[derive(Clone, Debug, PartialEq, Eq)]
pub struct PresetValueFunction<T> {
    pub git_config_key: Option<String>,
    pub fallback: Fallback<T>,
}

/// The value functions of a preset, by option name.
pub type BuiltinPreset<T> = StringHashMap<PresetValueFunction<T>>;

/// An entry of a preset: an option name with the option's value function.
pub type Entry = (String, PresetValueFunction<String>);

/// What is declared of an option that a preset sets: the option's name, the
/// configuration key that its value function consults, if any, and the fallback
/// that the function evaluates where the configuration supplies no value.
pub type Declaration<'a> = (&'a str, Option<&'a str>, Fallback<String>);

/// A fallback over mathematical strings.
pub enum FallbackView {
    Fixed(Seq<char>),
    ValueOf(StringOption),
    Modified(StringOption, Seq<char>),
}

/// A value function over mathematical strings.
pub struct ValueFunctionView {
    pub git_config_key: Option<Seq<char>>,
    pub fallback: FallbackView,
}

/// An option name with the value function that is defined for it.
pub type Definition = (Seq<char>, ValueFunctionView);

/// The value functions of a preset by option name, over mathematical strings.
pub type PresetView = Map<Seq<char>, ValueFunctionView>;

/// Presets by name, over mathematical strings.
pub type PresetsView = Map<Seq<char>, PresetView>;

impl FallbackView {
    /// The fallback's value on the snapshot `opt`.
    pub open spec fn value(self, opt: OptView) -> Seq<char> {
        match self {
            FallbackView::Fixed(value) => value,
            FallbackView::ValueOf(option) => opt[option],
            FallbackView::Modified(option, modifier) => opt[option] + seq![' '] + modifier,
        }
    }

    /// The option whose current value the fallback reads, if it reads one.
    pub open spec fn reads(self) -> Option<StringOption> {
        match self {
            FallbackView::Fixed(_) => None,
            FallbackView::ValueOf(option) => Some(option),
            FallbackView::Modified(option, _) => Some(option),
        }
    }
}

impl ValueFunctionView {
    /// The value that the configuration supplies: that of the declared key,
    /// where there is a configuration, a declared key, and the key is set.
    pub open spec fn configured_value(self, git_config: Option<GitConfigView>) -> Option<
        Seq<char>,
    > {
        match (git_config, self.git_config_key) {
            (Some(config), Some(key)) => if config.contains_key(key) {
                Some(config[key])
            } else {
                None
            },
            _ => None,
        }
    }

    /// The function's value: the configured value where there is one, else the
    /// fallback's value on the snapshot `opt`.
    pub open spec fn value(self, opt: OptView, git_config: Option<GitConfigView>) -> Seq<char> {
        match self.configured_value(git_config) {
            Some(value) => value,
            None => self.fallback.value(opt),
        }
    }
}

impl View for Fallback<String> {
    type V = FallbackView;

    open spec fn view(&self) -> FallbackView {
        match *self {
            Fallback::Fixed(value) => FallbackView::Fixed(value@),
            Fallback::ValueOf(option) => FallbackView::ValueOf(option),
            Fallback::Modified(option, modifier) => FallbackView::Modified(option, modifier@),
        }
    }
}

impl View for PresetValueFunction<String> {
    type V = ValueFunctionView;

    open spec fn view(&self) -> ValueFunctionView {
        ValueFunctionView {
            git_config_key: match self.git_config_key {
                Some(key) => Some(key@),
                None => None,
            },
            fallback: self.fallback@,
        }
    }
}

impl Fallback<String> {
    /// The fallback's value on the snapshot `opt`.
    pub fn evaluate(&self, opt: &Opt) -> (value: String)
        ensures
            value@ == self@.value(opt@),
    {
        match self {
            Fallback::Fixed(value) => value.clone(),
            Fallback::ValueOf(option) => opt.get(*option).clone(),
            Fallback::Modified(option, modifier) => {
                let mut value = opt.get(*option).clone();
                value.append(" ");
                value.append(modifier.as_str());
                proof {
                    reveal_strlit(" ");
                    assert(" "@ =~= seq![' ']);
                }
                value
            },
        }
    }
}

impl PresetValueFunction<String> {
    /// The option's value on the snapshot `opt` under `git_config`.
    ///
    /// The fallback is evaluated only where the configuration supplies no value.
    pub fn call(&self, opt: &Opt, git_config: &Option<GitConfig>) -> (value: String)
        ensures
            value@ == self@.value(opt@, config_view(git_config)),
    {
        let configured = match (git_config, &self.git_config_key) {
            (Some(git_config), Some(git_config_key)) => {
                git_config.get_string(git_config_key.as_str())
            },
            _ => None,
        };
        match configured {
            Some(value) => value,
            None => self.fallback.evaluate(opt),
        }
    }
}

/// A value function yields the same value each time it is invoked on one
/// snapshot and one configuration.
pub proof fn lemma_call_yields_one_value(
    function: PresetValueFunction<String>,
    opt: Opt,
    git_config: Option<GitConfig>,
    first: String,
    second: String,
)
    requires
        call_ensures(PresetValueFunction::<String>::call, (&function, &opt, &git_config), first),
        call_ensures(PresetValueFunction::<String>::call, (&function, &opt, &git_config), second),
    ensures
        first@ == second@,
{
}

/// The definition of the option named `option_name`: its value function
/// consults `git_config_key`, if there is one, before it evaluates `fallback`.
pub open spec fn definition(
    option_name: Seq<char>,
    git_config_key: Option<Seq<char>>,
    fallback: FallbackView,
) -> Definition {
    (option_name, ValueFunctionView { git_config_key, fallback })
}

/// The definition that `declaration` states.
pub open spec fn declaration_view(declaration: Declaration) -> Definition {
    definition(
        declaration.0@,
        match declaration.1 {
            Some(key) => Some(key@),
            None => None,
        },
        declaration.2@,
    )
}

/// The definitions that `declarations` state, in their order.
pub open spec fn declarations_view(declarations: Seq<Declaration>) -> Seq<Definition> {
    declarations.map_values(|declaration: Declaration| declaration_view(declaration))
}

/// The definitions that `entries` hold, in their order.
pub open spec fn entries_view(entries: Seq<Entry>) -> Seq<Definition> {
    entries.map_values(|entry: Entry| (entry.0@, entry.1@))
}

/// Builds the entries of a preset from the declarations of its options: for
/// each option, the value function that consults the declared configuration
/// key, if there is one, before it evaluates the declared fallback.
pub fn builtin_preset(declarations: Vec<Declaration>) -> (preset: Vec<Entry>)
    ensures
        entries_view(preset@) == declarations_view(declarations@),
{
    let ghost definitions = declarations_view(declarations@);
    let mut preset: Vec<Entry> = Vec::new();
    for declaration in it: declarations
        invariant
            it.seq() == declarations@,
            definitions == declarations_view(declarations@),
            preset@.len() == it.index(),
            entries_view(preset@) == definitions.take(it.index()),
    {
        let (option_name, git_config_key, fallback) = declaration;
        let git_config_key = match git_config_key {
            Some(key) => Some(key.to_string()),
            None => None,
        };
        preset.push((option_name.to_string(), PresetValueFunction { git_config_key, fallback }));
        assert(entries_view(preset@) =~= definitions.take(it.index() + 1));
    }
    assert(definitions.take(definitions.len() as int) =~= definitions);
    preset
}

/// The preset that `definitions` describe: each option name with its value
/// function. Where a name is defined more than once, its last definition
/// counts.
pub open spec fn preset_of(definitions: Seq<Definition>) -> PresetView
    decreases definitions.len(),
{
    if definitions.len() == 0 {
        Map::empty()
    } else {
        preset_of(definitions.drop_last()).insert(definitions.last().0, definitions.last().1)
    }
}

/// The value functions of `preset` by option name, over mathematical strings.
pub open spec fn preset_view(preset: &BuiltinPreset<String>) -> PresetView {
    preset@.map_values(|function: PresetValueFunction<String>| function@)
}

/// Gathers `entries` into a preset. An entry defines its option or, where an
/// earlier entry defined it, takes that entry's place.
pub fn collect_preset(entries: Vec<Entry>) -> (preset: BuiltinPreset<String>)
    ensures
        preset_view(&preset) == preset_of(entries_view(entries@)),
{
    let ghost definitions = entries_view(entries@);
    let mut preset: BuiltinPreset<String> = StringHashMap::new();
    assert(preset_view(&preset) =~= preset_of(definitions.take(0)));
    for entry in it: entries
        invariant
            it.seq() == entries@,
            definitions == entries_view(entries@),
            preset_view(&preset) == preset_of(definitions.take(it.index())),
    {
        let ghost before = preset_view(&preset);
        let (option_name, function) = entry;
        preset.insert(option_name, function);
        assert(definitions.take(it.index() + 1).drop_last() =~= definitions.take(it.index()));
        assert(preset_view(&preset) =~= before.insert(option_name@, function@));
    }
    assert(definitions.take(definitions.len() as int) =~= definitions);
    preset
}

/// A preset holds no value function for a name that none of its definitions
/// defines.
pub proof fn lemma_preset_of_undefined_name(definitions: Seq<Definition>, name: Seq<char>)
    requires
        forall|i: int| 0 <= i < definitions.len() ==> definitions[i].0 != name,
    ensures
        !preset_of(definitions).contains_key(name),
    decreases definitions.len(),
{
    if definitions.len() > 0 {
        lemma_preset_of_undefined_name(definitions.drop_last(), name);
    }
}

/// A preset holds, for each name defined, the value function of the last
/// definition of that name: a later definition takes the place of an earlier
/// one.
pub proof fn lemma_preset_of_last_definition(definitions: Seq<Definition>, i: int)
    requires
        0 <= i < definitions.len(),
        forall|j: int| i < j < definitions.len() ==> definitions[j].0 != definitions[i].0,
    ensures
        preset_of(definitions).contains_key(definitions[i].0),
        preset_of(definitions)[definitions[i].0] == definitions[i].1,
    decreases definitions.len(),
{
    if i < definitions.len() - 1 {
        lemma_preset_of_last_definition(definitions.drop_last(), i);
    }
}

/// Whether `preset` sets `option`: whether it holds a value function under the
/// option's name.
pub open spec fn option_is_set(preset: PresetView, option: StringOption) -> bool {
    preset.contains_key(option.spec_name())
}

/// The option that `preset` reads to set `option`, if it sets the option and
/// the fallback of the option's value function reads one.
pub open spec fn option_read(preset: PresetView, option: StringOption) -> Option<StringOption> {
    if option_is_set(preset, option) {
        preset[option.spec_name()].fallback.reads()
    } else {
        None
    }
}

/// Whether each value function of `preset` reads, if any, an option that comes
/// before its own in resolution order: values flow from an option to those
/// derived from it, never back, and no option is derived from itself.
pub open spec fn reads_earlier_options(preset: PresetView) -> bool {
    forall|option: StringOption|
        match #[trigger] option_read(preset, option) {
            Some(read) => read.spec_index() < option.spec_index(),
            None => true,
        }
}

/// Whether each value function of `preset` reads, if any, an option that the
/// preset sets too.
pub open spec fn reads_own_options(preset: PresetView) -> bool {
    forall|option: StringOption|
        match #[trigger] option_read(preset, option) {
            Some(read) => option_is_set(preset, read),
            None => true,
        }
}

/// The definitions of the preset that mimics diff-highlight: the styles of
/// removed and added lines, of their emphasized and unemphasized parts, and of
/// unchanged lines. With `bold`, removed and added lines are bold by default.
///
/// The styles of the emphasized and unemphasized parts default to the current
/// style of the whole line, the emphasized ones in reverse video.
pub open spec fn diff_highlight_definitions(bold: bool) -> Seq<Definition> {
    seq![
        definition(
            "minus-style"@,
            Some("color.diff.old"@),
            FallbackView::Fixed(if bold { "bold red"@ } else { "red"@ }),
        ),
        definition(
            "minus-non-emph-style"@,
            Some("color.diff-highlight.oldNormal"@),
            FallbackView::ValueOf(StringOption::MinusStyle),
        ),
        definition(
            "minus-emph-style"@,
            Some("color.diff-highlight.oldHighlight"@),
            FallbackView::Modified(StringOption::MinusStyle, "reverse"@),
        ),
        definition("zero-style"@, None, FallbackView::Fixed("normal"@)),
        definition(
            "plus-style"@,
            Some("color.diff.new"@),
            FallbackView::Fixed(if bold { "bold green"@ } else { "green"@ }),
        ),
        definition(
            "plus-non-emph-style"@,
            Some("color.diff-highlight.newNormal"@),
            FallbackView::ValueOf(StringOption::PlusStyle),
        ),
        definition(
            "plus-emph-style"@,
            Some("color.diff-highlight.newHighlight"@),
            FallbackView::Modified(StringOption::PlusStyle, "reverse"@),
        ),
    ]
}

/// The definitions that the preset mimicking diff-so-fancy adds to the bold
/// variant of the diff-highlight definitions: the styles of commit, file and
/// hunk headers and of their decorations.
pub open spec fn diff_so_fancy_extension() -> Seq<Definition> {
    seq![
        definition("commit-style"@, None, FallbackView::Fixed("bold yellow"@)),
        definition("commit-decoration-style"@, None, FallbackView::Fixed("none"@)),
        definition("file-style"@, Some("color.diff.meta"@), FallbackView::Fixed("11"@)),
        definition("file-decoration-style"@, None, FallbackView::Fixed("bold yellow ul ol"@)),
        definition(
            "hunk-header-style"@,
            Some("color.diff.frag"@),
            FallbackView::Fixed("bold syntax"@),
        ),
        definition("hunk-header-decoration-style"@, None, FallbackView::Fixed("magenta box"@)),
    ]
}

/// The definitions of the preset that mimics diff-so-fancy.
pub open spec fn diff_so_fancy_definitions() -> Seq<Definition> {
    diff_highlight_definitions(true) + diff_so_fancy_extension()
}

/// The builtin presets, by name.
pub open spec fn builtin_presets() -> PresetsView {
    map![
        "diff-highlight"@ => preset_of(diff_highlight_definitions(false)),
        "diff-so-fancy"@ => preset_of(diff_so_fancy_definitions()),
    ]
}

/// The presets of `presets` by name, over mathematical strings.
pub open spec fn presets_view(presets: &StringHashMap<BuiltinPreset<String>>) -> PresetsView {
    presets@.map_values(|preset: BuiltinPreset<String>| preset_view(&preset))
}

/// The entries of the diff-highlight preset, in its plain or its bold variant.
pub fn _make_diff_highlight_preset(bold: bool) -> (preset: Vec<Entry>)
    ensures
        entries_view(preset@) == diff_highlight_definitions(bold),
{
    let preset = builtin_preset(
        vec![
            (
                "minus-style",
                Some("color.diff.old"),
                Fallback::Fixed((if bold { "bold red" } else { "red" }).to_string()),
            ),
            (
                "minus-non-emph-style",
                Some("color.diff-highlight.oldNormal"),
                Fallback::ValueOf(StringOption::MinusStyle),
            ),
            (
                "minus-emph-style",
                Some("color.diff-highlight.oldHighlight"),
                Fallback::Modified(StringOption::MinusStyle, "reverse".to_string()),
            ),
            ("zero-style", None, Fallback::Fixed("normal".to_string())),
            (
                "plus-style",
                Some("color.diff.new"),
                Fallback::Fixed((if bold { "bold green" } else { "green" }).to_string()),
            ),
            (
                "plus-non-emph-style",
                Some("color.diff-highlight.newNormal"),
                Fallback::ValueOf(StringOption::PlusStyle),
            ),
            (
                "plus-emph-style",
                Some("color.diff-highlight.newHighlight"),
                Fallback::Modified(StringOption::PlusStyle, "reverse".to_string()),
            ),
        ],
    );
    assert(entries_view(preset@) =~= diff_highlight_definitions(bold));
    preset
}

/// The entries of the diff-highlight preset.
pub fn make_diff_highlight_preset() -> (preset: Vec<Entry>)
    ensures
        entries_view(preset@) == diff_highlight_definitions(false),
{
    _make_diff_highlight_preset(false)
}

/// The entries of the diff-so-fancy preset: those of the bold diff-highlight
/// preset, then its own.
pub fn make_diff_so_fancy_preset() -> (preset: Vec<Entry>)
    ensures
        entries_view(preset@) == diff_so_fancy_definitions(),
{
    let mut preset = _make_diff_highlight_preset(true);
    let mut extension = builtin_preset(
        vec![
            ("commit-style", None, Fallback::Fixed("bold yellow".to_string())),
            ("commit-decoration-style", None, Fallback::Fixed("none".to_string())),
            ("file-style", Some("color.diff.meta"), Fallback::Fixed("11".to_string())),
            ("file-decoration-style", None, Fallback::Fixed("bold yellow ul ol".to_string())),
            (
                "hunk-header-style",
                Some("color.diff.frag"),
                Fallback::Fixed("bold syntax".to_string()),
            ),
            ("hunk-header-decoration-style", None, Fallback::Fixed("magenta box".to_string())),
        ],
    );
    assert(entries_view(extension@) =~= diff_so_fancy_extension());
    preset.append(&mut extension);
    assert(entries_view(preset@) =~= diff_so_fancy_definitions());
    preset
}

/// The builtin presets by name: for each preset, a value function for each
/// option that it sets.
pub fn make_builtin_presets() -> (presets: StringHashMap<BuiltinPreset<String>>)
    ensures
        presets_view(&presets) == builtin_presets(),
{
    let mut presets: StringHashMap<BuiltinPreset<String>> = StringHashMap::new();
    presets.insert("diff-highlight".to_string(), collect_preset(make_diff_highlight_preset()));
    presets.insert("diff-so-fancy".to_string(), collect_preset(make_diff_so_fancy_preset()));
    assert(presets_view(&presets) =~= builtin_presets());
    presets
}

/// There are two builtin presets, diff-highlight and diff-so-fancy, each made
/// of its definitions.
pub proof fn lemma_builtin_presets()
    ensures
        builtin_presets().dom() == set!["diff-highlight"@, "diff-so-fancy"@],
        "diff-highlight"@ != "diff-so-fancy"@,
        builtin_presets()["diff-highlight"@] == preset_of(diff_highlight_definitions(false)),
        builtin_presets()["diff-so-fancy"@] == preset_of(diff_so_fancy_definitions()),
{
    reveal_strlit("diff-highlight");
    reveal_strlit("diff-so-fancy");
    assert("diff-highlight"@.len() != "diff-so-fancy"@.len());
    assert(builtin_presets().dom() =~= set!["diff-highlight"@, "diff-so-fancy"@]);
}

/// The diff-highlight preset sets the seven options that come first in
/// resolution order, the styles of removed, unchanged and added lines, each by
/// the value function that the option's definition gives.
pub proof fn lemma_diff_highlight_preset(bold: bool, option: StringOption)
    ensures
        option_is_set(preset_of(diff_highlight_definitions(bold)), option) <==> option.spec_index()
            < 7,
        option.spec_index() < 7 ==> preset_of(diff_highlight_definitions(bold))[option.spec_name()]
            == diff_highlight_definitions(bold)[option.spec_index()].1,
{
    lemma_defined_in_resolution_order(diff_highlight_definitions(bold), option);
}

/// The diff-so-fancy preset sets every option, each by the value function that
/// the option's definition gives.
pub proof fn lemma_diff_so_fancy_preset(option: StringOption)
    ensures
        option_is_set(preset_of(diff_so_fancy_definitions()), option),
        preset_of(diff_so_fancy_definitions())[option.spec_name()]
            == diff_so_fancy_definitions()[option.spec_index()].1,
{
    lemma_defined_in_resolution_order(diff_so_fancy_definitions(), option);
}

/// Where definitions define, one by one, the options that come first in
/// resolution order, the preset sets each of these options by the value
/// function of its definition, and no other option.
proof fn lemma_defined_in_resolution_order(definitions: Seq<Definition>, option: StringOption)
    requires
        definitions.len() <= StringOption::spec_all().len(),
        forall|i: int|
            0 <= i < definitions.len() ==> definitions[i].0
                == StringOption::spec_all()[i].spec_name(),
    ensures
        option_is_set(preset_of(definitions), option) <==> option.spec_index()
            < definitions.len(),
        option.spec_index() < definitions.len() ==> preset_of(definitions)[option.spec_name()]
            == definitions[option.spec_index()].1,
{
    option.lemma_all_holds_each_option_once();
    assert forall|i: int|
        0 <= i < definitions.len() && i != option.spec_index() implies definitions[i].0
        != option.spec_name() by {
        StringOption::lemma_names_differ(StringOption::spec_all()[i], option);
    }
    if option.spec_index() < definitions.len() {
        lemma_preset_of_last_definition(definitions, option.spec_index());
    } else {
        lemma_preset_of_undefined_name(definitions, option.spec_name());
    }
}

/// In each builtin preset, a value function reads only an option that comes
/// before its own in resolution order and that the preset sets too.
pub proof fn lemma_builtin_presets_read_earlier_options(name: Seq<char>)
    requires
        builtin_presets().contains_key(name),
    ensures
        reads_earlier_options(builtin_presets()[name]),
        reads_own_options(builtin_presets()[name]),
{
    let preset = builtin_presets()[name];
    lemma_builtin_presets();
    assert forall|option: StringOption|
        match #[trigger] option_read(preset, option) {
            Some(read) => read.spec_index() < option.spec_index() && option_is_set(preset, read),
            None => true,
        } by {
        lemma_diff_highlight_preset(false, option);
        lemma_diff_so_fancy_preset(option);
        match option_read(preset, option) {
            Some(read) => {
                lemma_diff_highlight_preset(false, read);
                lemma_diff_so_fancy_preset(read);
            },
            None => {},
        }
    }
}

/// The types of option values, each of which says whether a builtin preset can
/// supply a value of that type.
///
/// Builtin presets hold string values only. A type that does not say otherwise
/// gets no value function from any preset, whatever the option's name, and the
/// caller turns to its other sources.
pub trait GetValueFunctionFromBuiltinPreset: Sized {
    /// Whether builtin presets supply values of this type.
    open spec fn supplied_by_builtin_presets() -> bool {
        false
    }

    /// The value function for the option named `option_name` in
    /// `builtin_preset`, if the preset supplies a value of this type for it.
    fn get_value_function_from_builtin_preset<'a>(
        option_name: &str,
        builtin_preset: &'a BuiltinPreset<String>,
    ) -> (function: Option<&'a PresetValueFunction<Self>>)
        ensures
            !Self::supplied_by_builtin_presets() ==> function is None,
    {
        None
    }
}

impl GetValueFunctionFromBuiltinPreset for String {
    open spec fn supplied_by_builtin_presets() -> bool {
        true
    }

    /// The value function that `builtin_preset` holds for the option named
    /// `option_name`, if it holds one.
    fn get_value_function_from_builtin_preset<'a>(
        option_name: &str,
        builtin_preset: &'a BuiltinPreset<String>,
    ) -> (function: Option<&'a PresetValueFunction<String>>)
        ensures
            match function {
                Some(function) => builtin_preset@.contains_key(option_name@) && *function
                    == builtin_preset@[option_name@],
                None => !builtin_preset@.contains_key(option_name@),
            },
    {
        builtin_preset.get(option_name)
    }
}

impl GetValueFunctionFromBuiltinPreset for bool {}

impl GetValueFunctionFromBuiltinPreset for i64 {}

impl GetValueFunctionFromBuiltinPreset for usize {}

impl GetValueFunctionFromBuiltinPreset for Option<String> {}

/// Builtin presets supply values of strings, and of no other type of option
/// value.
pub proof fn lemma_builtin_presets_supply_strings_only()
    ensures
        String::supplied_by_builtin_presets(),
        !bool::supplied_by_builtin_presets(),
        !i64::supplied_by_builtin_presets(),
        !usize::supplied_by_builtin_presets(),
        !Option::<String>::supplied_by_builtin_presets(),
{
}

/// No preset has a value function for an option whose value is not a string,
/// whatever the option's name, even the name of an option that the preset
/// sets.
pub proof fn lemma_other_types_get_no_value_function(
    option_name: &str,
    builtin_preset: &BuiltinPreset<String>,
    for_bool: Option<&PresetValueFunction<bool>>,
    for_i64: Option<&PresetValueFunction<i64>>,
    for_usize: Option<&PresetValueFunction<usize>>,
    for_optional_string: Option<&PresetValueFunction<Option<String>>>,
)
    requires
        call_ensures(
            bool::get_value_function_from_builtin_preset,
            (option_name, builtin_preset),
            for_bool,
        ),
        call_ensures(
            i64::get_value_function_from_builtin_preset,
            (option_name, builtin_preset),
            for_i64,
        ),
        call_ensures(
            usize::get_value_function_from_builtin_preset,
            (option_name, builtin_preset),
            for_usize,
        ),
        call_ensures(
            Option::<String>::get_value_function_from_builtin_preset,
            (option_name, builtin_preset),
            for_optional_string,
        ),
    ensures
        for_bool is None,
        for_i64 is None,
        for_usize is None,
        for_optional_string is None,
{
}

} // verus!
