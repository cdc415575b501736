//! What is worth telling the user though it is no error.
//!
//! The library does not log. Where a configuration is accepted with a
//! remark, the remark is handed out as a value, for the caller to log.
use vstd::prelude::*;

verus! {

/// What there is to remark.
#[derive(Clone, Copy, Debug, PartialEq, Eq, Structural)]
pub enum Notice {
    /// A job names several kinds, and the last one is used.
    SeveralKinds,
    /// A job has an attribute that its kind does not read. The detail is
    /// the name of the attribute.
    UnusedAttribute,
    /// A label sets a parameter that is set already. The detail is the
    /// label key.
    RepeatedParameter,
    /// A label declares a job on the host, which is not allowed, and is
    /// passed over. The detail is the label key.
    UnsafeLabel,
    /// A property of an INI section has no value and is passed over. The
    /// detail is its key.
    PropertyWithoutValue,
    /// An INI section is declared again, and both are merged. The detail
    /// is the key of the section.
    DuplicateSection,
    /// A YAML key stands twice in one mapping, and both are merged. The
    /// detail is the key.
    RepeatedKey,
    /// A YAML alias is passed over, with the node it stands for.
    Alias,
}

/// The model of a warning.
pub type WarningModel = (Notice, Seq<char>);

/// A short description of a remark.
pub open spec fn notice_text(notice: Notice) -> Seq<char> {
    match notice {
        Notice::SeveralKinds => "the job has several kinds set, using the last one"@,
        Notice::UnusedAttribute => "the job has an attribute that will not be used"@,
        Notice::RepeatedParameter => "a parameter is set more than once"@,
        Notice::UnsafeLabel => "a local job declared in labels is not allowed and is skipped"@,
        Notice::PropertyWithoutValue => "a property without a value is ignored"@,
        Notice::DuplicateSection => "a section is present more than once and is merged"@,
        Notice::RepeatedKey => "a key appears several times in one mapping and is merged"@,
        Notice::Alias => "aliases are not supported and are ignored"@,
    }
}

/// The text of a warning: the description of the remark, followed by a
/// colon, a space and the detail where there is one.
pub open spec fn warning_text(notice: Notice, detail: Seq<char>) -> Seq<char> {
    if detail.len() == 0 {
        notice_text(notice)
    } else {
        notice_text(notice) + ": "@ + detail
    }
}

/// The remark of a result, as a list: one warning, or none.
pub open spec fn noted(w: Option<WarningModel>) -> Seq<WarningModel> {
    match w {
        Some(w) => seq![w],
        None => Seq::empty(),
    }
}

/// A remark, and the text it is about.
#[derive(Clone, Debug, PartialEq, Eq)]
pub struct Warning {
    pub notice: Notice,
    pub detail: String,
}

impl View for Warning {
    type V = WarningModel;

    open spec fn view(&self) -> WarningModel {
        (self.notice, self.detail@)
    }
}

impl DeepView for Warning {
    type V = WarningModel;

    open spec fn deep_view(&self) -> WarningModel {
        self@
    }
}

impl Notice {
    /// A short description of this remark.
    pub fn text(&self) -> (r: &'static str)
        ensures
            r@ == notice_text(*self),
    {
        match self {
            Notice::SeveralKinds => "the job has several kinds set, using the last one",
            Notice::UnusedAttribute => "the job has an attribute that will not be used",
            Notice::RepeatedParameter => "a parameter is set more than once",
            Notice::UnsafeLabel => "a local job declared in labels is not allowed and is skipped",
            Notice::PropertyWithoutValue => "a property without a value is ignored",
            Notice::DuplicateSection => "a section is present more than once and is merged",
            Notice::RepeatedKey => "a key appears several times in one mapping and is merged",
            Notice::Alias => "aliases are not supported and are ignored",
        }
    }
}

impl Warning {
    /// A warning with the given remark and detail.
    pub fn new(notice: Notice, detail: &str) -> (r: Warning)
        ensures
            r@ == (notice, detail@),
    {
        Warning { notice, detail: String::from_str(detail) }
    }

    /// The text of this warning, for a person to read.
    pub fn message(&self) -> (r: String)
        ensures
            r@ == warning_text(self.notice, self.detail@),
    {
        let mut out = String::from_str(self.notice.text());
        if self.detail.as_str().unicode_len() > 0 {
            out.append(": ");
            out.append(self.detail.as_str());
        }
        out
    }
}

/// Adds the remark of a step to a log, where there is one.
pub fn note(log: &mut Vec<Warning>, w: Option<Warning>)
    ensures
        final(log).deep_view() == old(log).deep_view() + noted(w.deep_view()),
{
    match w {
        Some(w) => {
            log.push(w);
            assert(log.deep_view() =~= old(log).deep_view() + seq![w@]);
        },
        None => {
            assert(log.deep_view() =~= old(log).deep_view() + Seq::<WarningModel>::empty());
        },
    }
}

/// Adds the remarks of one log to another.
pub fn note_all(log: &mut Vec<Warning>, more: Vec<Warning>)
    ensures
        final(log).deep_view() == old(log).deep_view() + more.deep_view(),
{
    let mut more = more;
    let ghost added = more.deep_view();
    log.append(&mut more);
    assert(log.deep_view() =~= old(log).deep_view() + added);
}

} // verus!
