//! The options that presets can set, and the snapshot that holds their current
//! values.

use vstd::prelude::*;

verus! {

/// A string-valued option of the tool.
///
/// The variants are declared in resolution order: an option whose preset value
/// may be derived from another option comes after that option.
#[derive(Clone, Copy, Debug, PartialEq, Eq, Structural)]
pub enum StringOption {
    MinusStyle,
    MinusNonEmphStyle,
    MinusEmphStyle,
    ZeroStyle,
    PlusStyle,
    PlusNonEmphStyle,
    PlusEmphStyle,
    CommitStyle,
    CommitDecorationStyle,
    FileStyle,
    FileDecorationStyle,
    HunkHeaderStyle,
    HunkHeaderDecorationStyle,
}

impl StringOption {
    /// The name by which presets and users refer to the option.
    pub open spec fn spec_name(self) -> Seq<char> {
        match self {
            StringOption::MinusStyle => "minus-style"@,
            StringOption::MinusNonEmphStyle => "minus-non-emph-style"@,
            StringOption::MinusEmphStyle => "minus-emph-style"@,
            StringOption::ZeroStyle => "zero-style"@,
            StringOption::PlusStyle => "plus-style"@,
            StringOption::PlusNonEmphStyle => "plus-non-emph-style"@,
            StringOption::PlusEmphStyle => "plus-emph-style"@,
            StringOption::CommitStyle => "commit-style"@,
            StringOption::CommitDecorationStyle => "commit-decoration-style"@,
            StringOption::FileStyle => "file-style"@,
            StringOption::FileDecorationStyle => "file-decoration-style"@,
            StringOption::HunkHeaderStyle => "hunk-header-style"@,
            StringOption::HunkHeaderDecorationStyle => "hunk-header-decoration-style"@,
        }
    }

    /// Every string-valued option, in resolution order.
    pub open spec fn spec_all() -> Seq<StringOption> {
        seq![
            StringOption::MinusStyle,
            StringOption::MinusNonEmphStyle,
            StringOption::MinusEmphStyle,
            StringOption::ZeroStyle,
            StringOption::PlusStyle,
            StringOption::PlusNonEmphStyle,
            StringOption::PlusEmphStyle,
            StringOption::CommitStyle,
            StringOption::CommitDecorationStyle,
            StringOption::FileStyle,
            StringOption::FileDecorationStyle,
            StringOption::HunkHeaderStyle,
            StringOption::HunkHeaderDecorationStyle,
        ]
    }

    /// The position of the option in the resolution order.
    pub open spec fn spec_index(self) -> int {
        match self {
            StringOption::MinusStyle => 0,
            StringOption::MinusNonEmphStyle => 1,
            StringOption::MinusEmphStyle => 2,
            StringOption::ZeroStyle => 3,
            StringOption::PlusStyle => 4,
            StringOption::PlusNonEmphStyle => 5,
            StringOption::PlusEmphStyle => 6,
            StringOption::CommitStyle => 7,
            StringOption::CommitDecorationStyle => 8,
            StringOption::FileStyle => 9,
            StringOption::FileDecorationStyle => 10,
            StringOption::HunkHeaderStyle => 11,
            StringOption::HunkHeaderDecorationStyle => 12,
        }
    }

    /// The name by which presets and users refer to the option.
    pub fn name(self) -> (name: &'static str)
        ensures
            name@ == self.spec_name(),
    {
        match self {
            StringOption::MinusStyle => "minus-style",
            StringOption::MinusNonEmphStyle => "minus-non-emph-style",
            StringOption::MinusEmphStyle => "minus-emph-style",
            StringOption::ZeroStyle => "zero-style",
            StringOption::PlusStyle => "plus-style",
            StringOption::PlusNonEmphStyle => "plus-non-emph-style",
            StringOption::PlusEmphStyle => "plus-emph-style",
            StringOption::CommitStyle => "commit-style",
            StringOption::CommitDecorationStyle => "commit-decoration-style",
            StringOption::FileStyle => "file-style",
            StringOption::FileDecorationStyle => "file-decoration-style",
            StringOption::HunkHeaderStyle => "hunk-header-style",
            StringOption::HunkHeaderDecorationStyle => "hunk-header-decoration-style",
        }
    }

    /// Every string-valued option, in resolution order.
    pub fn all() -> (options: Vec<StringOption>)
        ensures
            options@ == StringOption::spec_all(),
    {
        let options = vec![
            StringOption::MinusStyle,
            StringOption::MinusNonEmphStyle,
            StringOption::MinusEmphStyle,
            StringOption::ZeroStyle,
            StringOption::PlusStyle,
            StringOption::PlusNonEmphStyle,
            StringOption::PlusEmphStyle,
            StringOption::CommitStyle,
            StringOption::CommitDecorationStyle,
            StringOption::FileStyle,
            StringOption::FileDecorationStyle,
            StringOption::HunkHeaderStyle,
            StringOption::HunkHeaderDecorationStyle,
        ];
        assert(options@ =~= StringOption::spec_all());
        options
    }

    /// The option that goes by `name`, if there is one.
    pub fn from_name(name: &str) -> (option: Option<StringOption>)
        ensures
            match option {
                Some(option) => option.spec_name() == name@,
                None => forall|option: StringOption| option.spec_name() != name@,
            },
    {
        let wanted = name.to_owned();
        let options = StringOption::all();
        let mut i: usize = 0;
        while i < options.len()
            invariant
                i <= options.len(),
                options@ == StringOption::spec_all(),
                wanted@ == name@,
                forall|j: int| 0 <= j < i ==> options@[j].spec_name() != name@,
            decreases options.len() - i,
        {
            let option = options[i];
            if option.name().to_owned() == wanted {
                return Some(option);
            }
            i += 1;
        }
        proof {
            assert forall|option: StringOption| option.spec_name() != name@ by {
                option.lemma_all_holds_each_option_once();
            }
        }
        None
    }

    /// Each option stands in the resolution order exactly once, at its own index.
    pub proof fn lemma_all_holds_each_option_once(self)
        ensures
            0 <= self.spec_index() < StringOption::spec_all().len(),
            StringOption::spec_all()[self.spec_index()] == self,
            forall|i: int|
                0 <= i < StringOption::spec_all().len() && StringOption::spec_all()[i] == self
                    ==> i == self.spec_index(),
    {
    }

    /// Different options have different names.
    pub proof fn lemma_names_differ(first: StringOption, second: StringOption)
        requires
            first != second,
        ensures
            first.spec_name() != second.spec_name(),
    {
        reveal_strlit("minus-style");
        reveal_strlit("minus-non-emph-style");
        reveal_strlit("minus-emph-style");
        reveal_strlit("zero-style");
        reveal_strlit("plus-style");
        reveal_strlit("plus-non-emph-style");
        reveal_strlit("plus-emph-style");
        reveal_strlit("commit-style");
        reveal_strlit("commit-decoration-style");
        reveal_strlit("file-style");
        reveal_strlit("file-decoration-style");
        reveal_strlit("hunk-header-style");
        reveal_strlit("hunk-header-decoration-style");
        if first.spec_name().len() == second.spec_name().len() {
            assert(first.spec_name()[0] != second.spec_name()[0]);
        }
    }
}

/// The values of the string-valued options as resolved so far.
///
/// Value functions read the snapshot; applying a preset writes to it.
#[derive(Clone, Debug, PartialEq, Eq)]
pub struct Opt {
    pub minus_style: String,
    pub minus_non_emph_style: String,
    pub minus_emph_style: String,
    pub zero_style: String,
    pub plus_style: String,
    pub plus_non_emph_style: String,
    pub plus_emph_style: String,
    pub commit_style: String,
    pub commit_decoration_style: String,
    pub file_style: String,
    pub file_decoration_style: String,
    pub hunk_header_style: String,
    pub hunk_header_decoration_style: String,
}

/// The value of every option.
pub type OptView = Map<StringOption, Seq<char>>;

impl View for Opt {
    type V = OptView;

    /// The current value of every option.
    open spec fn view(&self) -> OptView {
        Map::total(|option: StringOption| self.spec_get(option)@)
    }
}

impl Opt {
    /// The field that holds the value of `option`.
    pub open spec fn spec_get(&self, option: StringOption) -> String {
        match option {
            StringOption::MinusStyle => self.minus_style,
            StringOption::MinusNonEmphStyle => self.minus_non_emph_style,
            StringOption::MinusEmphStyle => self.minus_emph_style,
            StringOption::ZeroStyle => self.zero_style,
            StringOption::PlusStyle => self.plus_style,
            StringOption::PlusNonEmphStyle => self.plus_non_emph_style,
            StringOption::PlusEmphStyle => self.plus_emph_style,
            StringOption::CommitStyle => self.commit_style,
            StringOption::CommitDecorationStyle => self.commit_decoration_style,
            StringOption::FileStyle => self.file_style,
            StringOption::FileDecorationStyle => self.file_decoration_style,
            StringOption::HunkHeaderStyle => self.hunk_header_style,
            StringOption::HunkHeaderDecorationStyle => self.hunk_header_decoration_style,
        }
    }

    /// The current value of `option`.
    pub fn get(&self, option: StringOption) -> (value: &String)
        ensures
            value@ == self@[option],
    {
        match option {
            StringOption::MinusStyle => &self.minus_style,
            StringOption::MinusNonEmphStyle => &self.minus_non_emph_style,
            StringOption::MinusEmphStyle => &self.minus_emph_style,
            StringOption::ZeroStyle => &self.zero_style,
            StringOption::PlusStyle => &self.plus_style,
            StringOption::PlusNonEmphStyle => &self.plus_non_emph_style,
            StringOption::PlusEmphStyle => &self.plus_emph_style,
            StringOption::CommitStyle => &self.commit_style,
            StringOption::CommitDecorationStyle => &self.commit_decoration_style,
            StringOption::FileStyle => &self.file_style,
            StringOption::FileDecorationStyle => &self.file_decoration_style,
            StringOption::HunkHeaderStyle => &self.hunk_header_style,
            StringOption::HunkHeaderDecorationStyle => &self.hunk_header_decoration_style,
        }
    }

    /// Stores `value` as the value of `option`; every other option keeps its value.
    pub fn set(&mut self, option: StringOption, value: String)
        ensures
            final(self)@ == old(self)@.insert(option, value@),
    {
        match option {
            StringOption::MinusStyle => self.minus_style = value,
            StringOption::MinusNonEmphStyle => self.minus_non_emph_style = value,
            StringOption::MinusEmphStyle => self.minus_emph_style = value,
            StringOption::ZeroStyle => self.zero_style = value,
            StringOption::PlusStyle => self.plus_style = value,
            StringOption::PlusNonEmphStyle => self.plus_non_emph_style = value,
            StringOption::PlusEmphStyle => self.plus_emph_style = value,
            StringOption::CommitStyle => self.commit_style = value,
            StringOption::CommitDecorationStyle => self.commit_decoration_style = value,
            StringOption::FileStyle => self.file_style = value,
            StringOption::FileDecorationStyle => self.file_decoration_style = value,
            StringOption::HunkHeaderStyle => self.hunk_header_style = value,
            StringOption::HunkHeaderDecorationStyle => self.hunk_header_decoration_style = value,
        }
        assert(self@ =~= old(self)@.insert(option, value@));
    }
}

} // verus!
