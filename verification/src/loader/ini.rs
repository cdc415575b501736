//! The INI reader.
//!
//! A section `[kind "name"]` declares a job, and each `key = value` line
//! below it adds one value to an attribute of that job. The payload is cut
//! into lines by the `ini_core` crate; what the lines mean is decided here.
use crate::attrs::{
    has_key, index_of, keys_unique, lemma_index_of, lemma_put, lookup, put, Attributes, KeyedList,
    NormalizedMap,
};
use crate::error::{Error, Fault};
use crate::job::common::{AttrModel, ErrorModel};
use crate::loader::docker::{single, JobsModel};
use crate::notice::{note, noted, Notice, Warning, WarningModel};
use crate::text::{
    any_space, chars_of, count_trailing_spaces, has_space, str_eq, trim, trimmed, trimmed_end,
};
use vstd::prelude::*;

verus! {

/// The section that holds settings rather than a job.
pub const GLOBAL_SECTION: &'static str = "global";

/// One element of an INI payload.
#[derive(Clone, Debug, PartialEq, Eq)]
pub enum IniItem {
    /// A line that starts a section header and does not close it.
    Error(String),
    /// A section header, without its brackets.
    Section(String),
    /// The end of a section: before each header, and at the end.
    SectionEnd,
    /// A property: its key and, where the line has a `=`, its value.
    Property(String, Option<String>),
    /// A comment.
    Comment(String),
    /// A blank line.
    Blank,
}

/// The model of an [`IniItem`].
pub enum IniItemModel {
    Error(Seq<char>),
    Section(Seq<char>),
    SectionEnd,
    Property(Seq<char>, Option<Seq<char>>),
    Comment(Seq<char>),
    Blank,
}

impl DeepView for IniItem {
    type V = IniItemModel;

    open spec fn deep_view(&self) -> IniItemModel {
        match self {
            IniItem::Error(line) => IniItemModel::Error(line@),
            IniItem::Section(header) => IniItemModel::Section(header@),
            IniItem::SectionEnd => IniItemModel::SectionEnd,
            IniItem::Property(key, value) => IniItemModel::Property(key@, value.deep_view()),
            IniItem::Comment(text) => IniItemModel::Comment(text@),
            IniItem::Blank => IniItemModel::Blank,
        }
    }
}

/// The elements that `ini_core` cuts `payload` into, in order.
pub uninterp spec fn ini_parse(payload: Seq<char>) -> Seq<IniItemModel>;

/// `ini_core::Parser::new(payload)`, run to its end: every element that
/// the parser yields, in order.
#[verifier::external_body]
fn ini_items(payload: &str) -> (r: Vec<IniItem>)
    ensures
        r.deep_view() == ini_parse(payload@),
{
    ini_core::Parser::new(payload).map(
        |item|
            match item {
                ini_core::Item::Error(line) => IniItem::Error(line.to_string()),
                ini_core::Item::Section(header) => IniItem::Section(header.to_string()),
                ini_core::Item::SectionEnd => IniItem::SectionEnd,
                ini_core::Item::Property(k, v) => IniItem::Property(
                    k.to_string(),
                    v.map(|v| v.to_string()),
                ),
                ini_core::Item::Comment(text) => IniItem::Comment(text.to_string()),
                ini_core::Item::Blank => IniItem::Blank,
            },
    ).collect()
}

/// The place of the last `c` in `s`, or `-1` where there is none.
pub open spec fn last_index_of(s: Seq<char>, c: char) -> int
    decreases s.len(),
{
    if s.len() == 0 {
        -1
    } else if s.last() == c {
        s.len() - 1
    } else {
        last_index_of(s.drop_last(), c)
    }
}

/// The kind and the name of a job header. A header is a kind, which holds
/// no white space, then white space or none, then a name between double
/// quotes, which holds no double quote; neither is empty.
pub open spec fn header_parts(s: Seq<char>) -> Option<(Seq<char>, Seq<char>)> {
    if s.len() >= 4 && s.last() == '"' {
        let open = last_index_of(s.drop_last(), '"');
        if open >= 0 {
            let name = s.subrange(open + 1, s.len() - 1);
            let kind = trimmed_end(s.take(open));
            if name.len() >= 1 && kind.len() >= 1 && !has_space(kind) {
                Some((kind, name))
            } else {
                None
            }
        } else {
            None
        }
    } else {
        None
    }
}

/// The key of the section of a job.
pub open spec fn section_key(kind: Seq<char>, name: Seq<char>) -> Seq<char> {
    kind + " \""@ + name + "\""@
}

/// The attributes that a section starts with.
pub open spec fn section_seed(kind: Seq<char>, name: Seq<char>) -> AttrModel {
    seq![("kind"@, seq![kind]), ("name"@, seq![name])]
}

/// The state of the reader: the sections so far, and the key of the
/// section that is open, which is empty where none is.
pub struct IniState {
    pub jobs: JobsModel,
    pub section: Seq<char>,
}

/// The reader after a section header. A job header opens the section of
/// that job, which is created where it is new and continued where it is
/// not. The header `global` opens a fresh section of that name. Any other
/// header is an error.
pub open spec fn open_section(st: IniState, header: Seq<char>) -> Result<IniState, ErrorModel> {
    let text = trimmed(header);
    match header_parts(text) {
        Some((kind, name)) => {
            let key = section_key(kind, name);
            if has_key(st.jobs, key) {
                Ok(IniState { jobs: st.jobs, section: key })
            } else {
                Ok(IniState { jobs: put(st.jobs, key, section_seed(kind, name)), section: key })
            }
        },
        None => if text == GLOBAL_SECTION@ {
            Ok(IniState { jobs: put(st.jobs, text, Seq::empty()), section: text })
        } else {
            Err((Fault::UnsupportedHeader, header))
        },
    }
}

/// The attributes after one more value of `key`.
pub open spec fn with_value(info: AttrModel, key: Seq<char>, value: Seq<char>) -> AttrModel {
    match lookup(info, key) {
        Some(values) => put(info, key, values.push(value)),
        None => put(info, key, seq![value]),
    }
}

/// The attributes of the section `key`: none where there is no such
/// section.
pub open spec fn info_of(jobs: JobsModel, key: Seq<char>) -> AttrModel {
    match lookup(jobs, key) {
        Some(known) => known,
        None => Seq::empty(),
    }
}

/// The sections after one more value of the attribute `key` of `section`.
pub open spec fn with_section_value(
    jobs: JobsModel,
    section: Seq<char>,
    key: Seq<char>,
    value: Seq<char>,
) -> JobsModel {
    put(jobs, section, with_value(info_of(jobs, section), key, value))
}

/// The reader after a property. Outside a section it is an error; without
/// a value it is passed over; otherwise its value, without the white space
/// around it, is added to the attribute of its key.
pub open spec fn add_property(st: IniState, key: Seq<char>, value: Option<Seq<char>>) -> Result<
    IniState,
    ErrorModel,
> {
    let name = trimmed(key);
    if st.section.len() == 0 {
        Err((Fault::PropertyOutsideSection, name))
    } else {
        match value {
            None => Ok(st),
            Some(text) => Ok(
                IniState {
                    jobs: with_section_value(st.jobs, st.section, name, trimmed(text)),
                    section: st.section,
                },
            ),
        }
    }
}

/// The reader after one more element.
pub open spec fn ini_step(st: IniState, item: IniItemModel) -> Result<IniState, ErrorModel> {
    match item {
        IniItemModel::Error(line) => Err((Fault::IniSyntax, line)),
        IniItemModel::Section(header) => open_section(st, header),
        IniItemModel::SectionEnd => Ok(IniState { jobs: st.jobs, section: Seq::empty() }),
        IniItemModel::Property(key, value) => add_property(st, key, value),
        IniItemModel::Comment(_) => Ok(st),
        IniItemModel::Blank => Ok(st),
    }
}

/// The sections that the elements give, read in order from the state `st`
/// up to the first error.
pub open spec fn read_items(st: IniState, items: Seq<IniItemModel>) -> Result<
    JobsModel,
    ErrorModel,
>
    decreases items.len(),
{
    if items.len() == 0 {
        Ok(st.jobs)
    } else {
        match ini_step(st, items[0]) {
            Ok(next) => read_items(next, items.drop_first()),
            Err(e) => Err(e),
        }
    }
}

/// The sections that the elements of an INI payload give.
pub open spec fn ini_sections(items: Seq<IniItemModel>) -> Result<JobsModel, ErrorModel> {
    read_items(IniState { jobs: Seq::empty(), section: Seq::empty() }, items)
}

proof fn lemma_last_index_of(s: Seq<char>, c: char, p: int)
    requires
        -1 <= p < s.len(),
        p >= 0 ==> s[p] == c,
        forall|j: int| p < j < s.len() ==> #[trigger] s[j] != c,
    ensures
        last_index_of(s, c) == p,
    decreases s.len(),
{
    if s.len() > 0 && p < s.len() - 1 {
        let t = s.drop_last();
        assert forall|j: int| p < j < t.len() implies #[trigger] t[j] != c by {
            assert(t[j] == s[j]);
        }
        lemma_last_index_of(t, c, p);
    }
}

/// The kind and the name of a job header, where `text` is one.
pub fn match_header(text: &str) -> (r: Option<(String, String)>)
    ensures
        match r {
            Some((kind, name)) => header_parts(text@) == Some((kind@, name@)),
            None => header_parts(text@) is None,
        },
{
    let v = chars_of(text);
    let n = v.len();
    if n < 4 || v[n - 1] != '"' {
        return None;
    }
    let ghost inner = v@.drop_last();
    let mut i: usize = n - 1;
    while i > 0 && v[i - 1] != '"'
        invariant
            i <= n - 1,
            n == v.len(),
            inner == v@.drop_last(),
            forall|j: int| i <= j < n - 1 ==> #[trigger] inner[j] != '"',
        decreases i,
    {
        i -= 1;
    }
    proof {
        if i > 0 {
            assert(inner[i - 1] == v@[i - 1]);
        }
        lemma_last_index_of(inner, '"', i - 1);
    }
    if i == 0 {
        return None;
    }
    let open = i - 1;
    let spaces = count_trailing_spaces(&v, open);
    let end = open - spaces;
    let ghost kind = trimmed_end(v@.take(open as int));
    assert(kind =~= v@.subrange(0, end as int));
    if open + 1 >= n - 1 || end == 0 {
        return None;
    }
    assert(kind =~= v@.take(end as int));
    if any_space(&v, end) {
        return None;
    }
    Some(
        (
            String::from_str(text.substring_char(0, end)),
            String::from_str(text.substring_char(open + 1, n - 1)),
        ),
    )
}

/// The key of the section of a job: the kind, a space, and the name
/// between double quotes.
pub fn section_key_of(kind: &str, name: &str) -> (r: String)
    ensures
        r@ == section_key(kind@, name@),
{
    let mut out = String::from_str(kind);
    out.append(" \"");
    out.append(name);
    out.append("\"");
    out
}

/// The attributes that a section starts with.
fn section_seed_of(kind: &str, name: &str) -> (r: Attributes)
    ensures
        r@ == section_seed(kind@, name@),
{
    proof {
        reveal_strlit("kind");
        reveal_strlit("name");
        assert("kind"@[0] != "name"@[0]);
    }
    let mut out: Attributes = KeyedList::new();
    out.insert(String::from_str("kind"), single(kind));
    out.insert(String::from_str("name"), single(name));
    assert(out@ =~= section_seed(kind@, name@));
    out
}

/// Adds one value to an attribute.
pub fn push_value(info: &mut Attributes, key: &str, value: String)
    ensures
        final(info)@ == with_value(old(info)@, key@, value@),
{
    match info.position(key) {
        Some(at) => {
            let mut values = info.replace_at(at, Vec::new());
            let ghost before = values.deep_view();
            values.push(value);
            assert(values.deep_view() =~= before.push(value@));
            info.replace_at(at, values);
            assert(info@ =~= put(old(info)@, key@, before.push(value@)));
        },
        None => {
            let ghost text = value@;
            let mut values: Vec<String> = Vec::new();
            values.push(value);
            assert(values.deep_view() =~= seq![text]);
            info.insert(String::from_str(key), values);
        },
    }
}

/// Adds one value to an attribute of a section.
pub fn add_value(jobs: &mut NormalizedMap, section: &str, key: &str, value: String)
    ensures
        final(jobs)@ == with_section_value(old(jobs)@, section@, key@, value@),
{
    let ghost before = jobs@;
    match jobs.position(section) {
        Some(at) => {
            let fresh: Attributes = KeyedList::new();
            let mut info = jobs.replace_at(at, fresh);
            push_value(&mut info, key, value);
            let ghost next = info@;
            jobs.replace_at(at, info);
            assert(jobs@ =~= put(before, section@, next));
        },
        None => {
            let mut info: Attributes = KeyedList::new();
            push_value(&mut info, key, value);
            jobs.insert(String::from_str(section), info);
        },
    }
}

/// What there is to remark on an element, for a reader in the state
/// `st`: a job header whose section exists already, and a property without
/// a value in a section.
pub open spec fn ini_notice(st: IniState, item: IniItemModel) -> Option<WarningModel> {
    match item {
        IniItemModel::Section(header) => match header_parts(trimmed(header)) {
            Some((kind, name)) => if has_key(st.jobs, section_key(kind, name)) {
                Some((Notice::DuplicateSection, section_key(kind, name)))
            } else {
                None
            },
            None => None,
        },
        IniItemModel::Property(key, None) => if st.section.len() > 0 {
            Some((Notice::PropertyWithoutValue, trimmed(key)))
        } else {
            None
        },
        _ => None,
    }
}

/// The remarks on the elements, read in order from the state `st` up to
/// the first error.
pub open spec fn notices_from(st: IniState, items: Seq<IniItemModel>) -> Seq<WarningModel>
    decreases items.len(),
{
    if items.len() == 0 {
        Seq::empty()
    } else {
        noted(ini_notice(st, items[0])) + (match ini_step(st, items[0]) {
            Ok(next) => notices_from(next, items.drop_first()),
            Err(_) => Seq::empty(),
        })
    }
}

/// The remarks on the elements of an INI payload.
pub open spec fn ini_notices(items: Seq<IniItemModel>) -> Seq<WarningModel> {
    notices_from(IniState { jobs: Seq::empty(), section: Seq::empty() }, items)
}

/// Opens the section of a header, and says what there is to remark.
fn enter_section(jobs: &mut NormalizedMap, section: &mut String, header: &str) -> (r: Result<
    Option<Warning>,
    Error,
>)
    ensures
        match r {
            Ok(w) => {
                &&& open_section(IniState { jobs: old(jobs)@, section: old(section)@ }, header@)
                    == Ok::<IniState, ErrorModel>(
                    IniState { jobs: final(jobs)@, section: final(section)@ },
                )
                &&& w.deep_view() == ini_notice(
                    IniState { jobs: old(jobs)@, section: old(section)@ },
                    IniItemModel::Section(header@),
                )
            },
            Err(e) => {
                &&& open_section(IniState { jobs: old(jobs)@, section: old(section)@ }, header@)
                    == Err::<IniState, ErrorModel>(e@)
                &&& ini_notice(
                    IniState { jobs: old(jobs)@, section: old(section)@ },
                    IniItemModel::Section(header@),
                ) is None
                &&& final(jobs)@ == old(jobs)@
                &&& final(section)@ == old(section)@
            },
        },
{
    let text = trim(header);
    match match_header(text.as_str()) {
        Some((kind, name)) => {
            let key = section_key_of(kind.as_str(), name.as_str());
            let remark = if jobs.contains_key(key.as_str()) {
                Some(Warning::new(Notice::DuplicateSection, key.as_str()))
            } else {
                jobs.insert(key.clone(), section_seed_of(kind.as_str(), name.as_str()));
                None
            };
            *section = key;
            Ok(remark)
        },
        None => {
            if str_eq(text.as_str(), GLOBAL_SECTION) {
                let fresh: Attributes = KeyedList::new();
                jobs.insert(text.clone(), fresh);
                *section = text;
                Ok(None)
            } else {
                Err(Error::new(Fault::UnsupportedHeader, header))
            }
        },
    }
}

/// Reads a property into the open section, and says what there is to
/// remark.
fn enter_property(
    jobs: &mut NormalizedMap,
    section: &String,
    key: &str,
    value: &Option<String>,
) -> (r: Result<Option<Warning>, Error>)
    ensures
        match r {
            Ok(w) => {
                &&& add_property(
                    IniState { jobs: old(jobs)@, section: section@ },
                    key@,
                    value.deep_view(),
                ) == Ok::<IniState, ErrorModel>(IniState { jobs: final(jobs)@, section: section@ })
                &&& w.deep_view() == ini_notice(
                    IniState { jobs: old(jobs)@, section: section@ },
                    IniItemModel::Property(key@, value.deep_view()),
                )
            },
            Err(e) => {
                &&& add_property(
                    IniState { jobs: old(jobs)@, section: section@ },
                    key@,
                    value.deep_view(),
                ) == Err::<IniState, ErrorModel>(e@)
                &&& ini_notice(
                    IniState { jobs: old(jobs)@, section: section@ },
                    IniItemModel::Property(key@, value.deep_view()),
                ) is None
                &&& final(jobs)@ == old(jobs)@
            },
        },
{
    let name = trim(key);
    if section.as_str().is_empty() {
        return Err(Error { fault: Fault::PropertyOutsideSection, detail: name });
    }
    match value {
        None => Ok(Some(Warning { notice: Notice::PropertyWithoutValue, detail: name })),
        Some(text) => {
            add_value(jobs, section.as_str(), name.as_str(), trim(text.as_str()));
            Ok(None)
        },
    }
}

/// Builds the sections of an INI payload from its elements, and adds to
/// `log` what there is to remark on them.
///
/// The result maps the key of each section, `kind "name"` or `global`, to
/// its attributes. It is an error where a header is malformed or
/// unsupported, or a property stands outside a section.
pub fn read_ini_items(items: &Vec<IniItem>, log: &mut Vec<Warning>) -> (r: Result<
    NormalizedMap,
    Error,
>)
    ensures
        match r {
            Ok(map) => ini_sections(items.deep_view()) == Ok::<JobsModel, ErrorModel>(map@),
            Err(e) => ini_sections(items.deep_view()) == Err::<JobsModel, ErrorModel>(e@),
        },
        final(log).deep_view() == old(log).deep_view() + ini_notices(items.deep_view()),
{
    let mut jobs: NormalizedMap = KeyedList::new();
    let mut section = String::new();
    let ghost all = items.deep_view();
    let ghost start = log.deep_view();
    let mut i: usize = 0;
    assert(all.skip(0) =~= all);
    while i < items.len()
        invariant
            i <= items.len(),
            all == items.deep_view(),
            start == old(log).deep_view(),
            read_items(IniState { jobs: jobs@, section: section@ }, all.skip(i as int))
                == ini_sections(all),
            log.deep_view() + notices_from(
                IniState { jobs: jobs@, section: section@ },
                all.skip(i as int),
            ) == start + ini_notices(all),
        decreases items.len() - i,
    {
        let ghost st = IniState { jobs: jobs@, section: section@ };
        let ghost logged = log.deep_view();
        proof {
            assert(all.skip(i as int)[0] == items@[i as int].deep_view());
            assert(all.skip(i as int).drop_first() =~= all.skip(i + 1));
        }
        let stepped = match &items[i] {
            IniItem::Error(line) => Err(Error::new(Fault::IniSyntax, line.as_str())),
            IniItem::Section(header) => enter_section(&mut jobs, &mut section, header.as_str()),
            IniItem::SectionEnd => {
                section = String::new();
                Ok(None)
            },
            IniItem::Property(key, value) => enter_property(
                &mut jobs,
                &section,
                key.as_str(),
                value,
            ),
            IniItem::Comment(_) => Ok(None),
            IniItem::Blank => Ok(None),
        };
        match stepped {
            Ok(remark) => {
                let ghost head = noted(remark.deep_view());
                let ghost rest = notices_from(
                    IniState { jobs: jobs@, section: section@ },
                    all.skip(i + 1),
                );
                note(log, remark);
                assert(log.deep_view() + rest =~= logged + (head + rest));
            },
            Err(e) => {
                assert(logged + notices_from(st, all.skip(i as int)) =~= logged);
                return Err(e);
            },
        }
        i += 1;
    }
    assert(log.deep_view() + Seq::<WarningModel>::empty() =~= log.deep_view());
    Ok(jobs)
}

/// Builds the sections of an INI payload from its elements.
pub fn parse_ini_items(items: &Vec<IniItem>) -> (r: Result<NormalizedMap, Error>)
    ensures
        match r {
            Ok(map) => ini_sections(items.deep_view()) == Ok::<JobsModel, ErrorModel>(map@),
            Err(e) => ini_sections(items.deep_view()) == Err::<JobsModel, ErrorModel>(e@),
        },
{
    let mut log: Vec<Warning> = Vec::new();
    read_ini_items(items, &mut log)
}

/// What there is to remark on the elements of an INI payload, up to the
/// first error.
pub fn ini_warnings(items: &Vec<IniItem>) -> (r: Vec<Warning>)
    ensures
        r.deep_view() == ini_notices(items.deep_view()),
{
    let mut log: Vec<Warning> = Vec::new();
    assert(log.deep_view() =~= Seq::<WarningModel>::empty());
    let _read = read_ini_items(items, &mut log);
    assert(Seq::<WarningModel>::empty() + ini_notices(items.deep_view()) =~= ini_notices(
        items.deep_view(),
    ));
    log
}

/// Reads an INI payload into the normalized map, and adds to `log` what
/// there is to remark on it.
pub fn read_ini(payload: &String, log: &mut Vec<Warning>) -> (r: Result<NormalizedMap, Error>)
    ensures
        match r {
            Ok(map) => ini_sections(ini_parse(payload@)) == Ok::<JobsModel, ErrorModel>(map@),
            Err(e) => ini_sections(ini_parse(payload@)) == Err::<JobsModel, ErrorModel>(e@),
        },
        final(log).deep_view() == old(log).deep_view() + ini_notices(ini_parse(payload@)),
{
    let items = ini_items(payload.as_str());
    read_ini_items(&items, log)
}

/// Reads an INI payload into the normalized map.
pub fn parse_ini(payload: &String) -> (r: Result<NormalizedMap, Error>)
    ensures
        match r {
            Ok(map) => ini_sections(ini_parse(payload@)) == Ok::<JobsModel, ErrorModel>(map@),
            Err(e) => ini_sections(ini_parse(payload@)) == Err::<JobsModel, ErrorModel>(e@),
        },
{
    let mut log: Vec<Warning> = Vec::new();
    read_ini(payload, &mut log)
}

/// Whether the attributes are those of the section that the header of
/// the job `name` of the kind `kind` opens: no attribute stands twice, the
/// first kind is the one of the header, and so is the first name.
/// Properties of the section may add further kinds and names.
pub open spec fn headed_as(info: AttrModel, kind: Seq<char>, name: Seq<char>) -> bool {
    &&& keys_unique(info)
    &&& lookup(info, "kind"@) matches Some(kinds) && kinds.len() >= 1 && kinds[0] == kind
    &&& lookup(info, "name"@) matches Some(names) && names.len() >= 1 && names[0] == name
}

/// Whether an entry is the section of a job: it stands under the key of a
/// kind and a name, and its attributes are those of that section.
pub open spec fn section_in_order(entry: (Seq<char>, AttrModel)) -> bool {
    exists|kind: Seq<char>, name: Seq<char>|
        entry.0 == #[trigger] section_key(kind, name) && headed_as(entry.1, kind, name)
}

/// Whether every section but the one of the settings is the section of a
/// job.
pub open spec fn sections_in_order(jobs: JobsModel) -> bool {
    forall|i: int|
        0 <= i < jobs.len() && (#[trigger] jobs[i]).0 != GLOBAL_SECTION@ ==> section_in_order(
            jobs[i],
        )
}

/// Whether every section but the one of the settings has a kind and a name.
pub open spec fn sections_named(jobs: JobsModel) -> bool {
    forall|i: int|
        0 <= i < jobs.len() && (#[trigger] jobs[i]).0 != GLOBAL_SECTION@ ==> has_key(
            jobs[i].1,
            "kind"@,
        ) && has_key(jobs[i].1, "name"@)
}

/// Whether the reader is in order: its sections are, and the section that
/// is open exists.
pub open spec fn reader_in_order(st: IniState) -> bool {
    &&& sections_in_order(st.jobs)
    &&& st.section.len() > 0 ==> has_key(st.jobs, st.section)
}

/// The attributes that a section starts with are those of its header.
proof fn lemma_seed_headed(kind: Seq<char>, name: Seq<char>)
    ensures
        headed_as(section_seed(kind, name), kind, name),
{
    reveal_strlit("kind");
    reveal_strlit("name");
    assert("kind"@[0] != "name"@[0]);
    let s = section_seed(kind, name);
    assert(s[0] == ("kind"@, seq![kind]));
    assert(s[1] == ("name"@, seq![name]));
    assert(keys_unique(s));
    lemma_index_of(s, 0);
    lemma_index_of(s, 1);
}

/// One more value leaves the attributes those of the header.
proof fn lemma_value_keeps_head(
    info: AttrModel,
    kind: Seq<char>,
    name: Seq<char>,
    key: Seq<char>,
    value: Seq<char>,
)
    requires
        headed_as(info, kind, name),
    ensures
        headed_as(with_value(info, key, value), kind, name),
{
    match lookup(info, key) {
        Some(values) => {
            lemma_put(info, key, values.push(value));
            if values.len() >= 1 {
                assert(values.push(value)[0] == values[0]);
            }
        },
        None => {
            lemma_put(info, key, seq![value]);
        },
    }
}

/// One more element leaves the reader in order.
proof fn lemma_step_in_order(st: IniState, item: IniItemModel)
    requires
        reader_in_order(st),
    ensures
        ini_step(st, item) matches Ok(next) ==> reader_in_order(next),
{
    match ini_step(st, item) {
        Ok(next) => {
            match item {
                IniItemModel::Section(header) => {
                    let text = trimmed(header);
                    match header_parts(text) {
                        Some((kind, name)) => {
                            let key = section_key(kind, name);
                            if !has_key(st.jobs, key) {
                                let seed = section_seed(kind, name);
                                lemma_seed_headed(kind, name);
                                assert(next.jobs == st.jobs.push((key, seed)));
                                let last = st.jobs.len() as int;
                                assert(next.jobs[last] == (key, seed));
                                assert(section_in_order(next.jobs[last]));
                                assert forall|i: int|
                                    0 <= i < next.jobs.len() && (#[trigger] next.jobs[i]).0
                                        != GLOBAL_SECTION@ implies section_in_order(
                                    next.jobs[i],
                                ) by {
                                    if i < st.jobs.len() {
                                        assert(next.jobs[i] == st.jobs[i]);
                                    }
                                }
                            }
                        },
                        None => {
                            lemma_global_in_order(st.jobs, text);
                        },
                    }
                },
                IniItemModel::Property(key, Some(value)) => {
                    let at = index_of(st.jobs, st.section);
                    let info = st.jobs[at].1;
                    let name = trimmed(key);
                    let changed = with_value(info, name, trimmed(value));
                    assert(next.jobs == st.jobs.update(at, (st.section, changed)));
                    assert(next.jobs[at] == (st.section, changed));
                    if st.section != GLOBAL_SECTION@ {
                        assert(st.jobs[at].0 != GLOBAL_SECTION@);
                        assert(section_in_order(st.jobs[at]));
                        let (kind0, name0) = choose|kind0: Seq<char>, name0: Seq<char>|
                            st.jobs[at].0 == #[trigger] section_key(kind0, name0) && headed_as(
                                st.jobs[at].1,
                                kind0,
                                name0,
                            );
                        lemma_value_keeps_head(info, kind0, name0, name, trimmed(value));
                        assert(st.section == section_key(kind0, name0));
                        assert(section_in_order(next.jobs[at]));
                    }
                    assert forall|i: int|
                        0 <= i < next.jobs.len() && (#[trigger] next.jobs[i]).0
                            != GLOBAL_SECTION@ implies section_in_order(next.jobs[i]) by {
                        if i != at {
                            assert(next.jobs[i] == st.jobs[i]);
                        }
                    }
                },
                _ => {},
            }
        },
        Err(_) => {},
    }
}

/// Opening the section of the settings leaves the sections in order, and
/// the section exists.
proof fn lemma_global_in_order(jobs: JobsModel, text: Seq<char>)
    requires
        sections_in_order(jobs),
        text == GLOBAL_SECTION@,
    ensures
        sections_in_order(put(jobs, text, Seq::empty())),
        has_key(put(jobs, text, Seq::empty()), text),
{
    let next = put(jobs, text, Seq::<(Seq<char>, Seq<Seq<char>>)>::empty());
    if has_key(jobs, text) {
        let at = index_of(jobs, text);
        assert(next[at].0 == text);
        assert forall|i: int|
            0 <= i < next.len() && (#[trigger] next[i]).0 != GLOBAL_SECTION@ implies section_in_order(
            next[i],
        ) by {
            if i != at {
                assert(next[i] == jobs[i]);
            }
        }
    } else {
        assert(next[jobs.len() as int].0 == text);
        assert forall|i: int|
            0 <= i < next.len() && (#[trigger] next[i]).0 != GLOBAL_SECTION@ implies section_in_order(
            next[i],
        ) by {
            if i < jobs.len() {
                assert(next[i] == jobs[i]);
            }
        }
    }
}

/// The elements leave the sections in order.
proof fn lemma_items_in_order(st: IniState, items: Seq<IniItemModel>)
    requires
        reader_in_order(st),
    ensures
        read_items(st, items) matches Ok(jobs) ==> sections_in_order(jobs),
    decreases items.len(),
{
    if items.len() > 0 {
        lemma_step_in_order(st, items[0]);
        match ini_step(st, items[0]) {
            Ok(next) => lemma_items_in_order(next, items.drop_first()),
            Err(_) => {},
        }
    }
}

/// Every section of an INI payload but the one of the settings is the
/// section of a job: it stands under the key of a kind and a name, no
/// attribute stands twice in it, and the first values of its attributes
/// `kind` and `name` are those of its header.
pub proof fn lemma_sections_are_in_order(items: Seq<IniItemModel>)
    ensures
        ini_sections(items) matches Ok(jobs) ==> sections_in_order(jobs),
{
    lemma_items_in_order(IniState { jobs: Seq::empty(), section: Seq::empty() }, items);
}

/// Every section of an INI payload but the one of the settings has a kind
/// and a name.
pub proof fn lemma_sections_are_named(items: Seq<IniItemModel>)
    ensures
        ini_sections(items) matches Ok(jobs) ==> sections_named(jobs),
{
    lemma_sections_are_in_order(items);
    match ini_sections(items) {
        Ok(jobs) => {
            assert forall|i: int|
                0 <= i < jobs.len() && (#[trigger] jobs[i]).0 != GLOBAL_SECTION@ implies has_key(
                jobs[i].1,
                "kind"@,
            ) && has_key(jobs[i].1, "name"@) by {
                assert(section_in_order(jobs[i]));
            }
        },
        Err(_) => {},
    }
}

} // verus!
