//! The label pipeline: from the labels of containers to the normalized map.
//!
//! A label `<prefix>.<kind>.<job-name>.<parameter> = <value>` on a container
//! sets one parameter of one job of that container. The containers of each
//! prefix are listed by the caller; what is read from them is decided here.
use crate::attrs::{
    has_key, index_of, keys_unique, lemma_index_of, lemma_put, lookup, put, Attributes, KeyedList,
    NormalizedMap,
};
use crate::error::{Error, Fault};
use crate::job::common::{AttrModel, ErrorModel};
use crate::notice::{note, noted, Notice, Warning, WarningModel};
use crate::text::{
    char_is_digit, chars_of, clone_strings, contains_str, is_digit, split, split_on, str_eq,
};
use vstd::prelude::*;

verus! {

/// The kind of the jobs that run on the host.
pub const LOCAL_KIND: &'static str = "job-local";

/// The model of the normalized map.
pub type JobsModel = Seq<(Seq<char>, AttrModel)>;

/// A container as the runtime lists it: its identifier and its labels, in
/// the order in which they are to be read.
#[derive(Clone, Debug, PartialEq, Eq)]
pub struct Container {
    pub id: String,
    pub labels: Vec<(String, String)>,
}

/// The model of a container.
pub struct ContainerModel {
    pub id: Seq<char>,
    pub labels: Seq<(Seq<char>, Seq<char>)>,
}

impl DeepView for Container {
    type V = ContainerModel;

    open spec fn deep_view(&self) -> ContainerModel {
        ContainerModel { id: self.id@, labels: self.labels.deep_view() }
    }
}

/// What the pipeline reads of a JSON value: of an array, which items are
/// strings; of anything else, that it is no array.
#[derive(Debug, PartialEq, Eq)]
pub enum JsonShape {
    Array(Vec<Option<String>>),
    Other,
}

/// The model of a [`JsonShape`].
pub enum JsonModel {
    Array(Seq<Option<Seq<char>>>),
    Other,
}

impl DeepView for JsonShape {
    type V = JsonModel;

    open spec fn deep_view(&self) -> JsonModel {
        match self {
            JsonShape::Array(items) => JsonModel::Array(items.deep_view()),
            JsonShape::Other => JsonModel::Other,
        }
    }
}

/// What the `json` crate reads `text` as: nothing where `text` is no JSON
/// value.
pub uninterp spec fn json_parse(text: Seq<char>) -> Option<JsonModel>;

/// The longest run of digits that the `json` crate can read in a number:
/// it counts the digits of a fraction in sixteen bits.
pub const JSON_DIGIT_LIMIT: usize = 32767;

/// Where a scan of a JSON text stands: inside a string or outside, and how
/// long the run of digits outside strings is that ends here, and the
/// longest such run so far.
pub struct JsonScan {
    /// Whether the scan is inside a string.
    pub in_string: bool,
    /// Whether the last character, inside a string, was a backslash that
    /// escapes the next one.
    pub escaped: bool,
    /// How many digits outside strings stand at the end of what was read.
    pub run: nat,
    /// The longest run of digits outside strings in what was read.
    pub longest: nat,
}

/// The scan after one more character. A double quote outside a string
/// opens one; inside a string a backslash escapes the character after it,
/// and a double quote that is not escaped closes the string. Outside
/// strings an ASCII digit extends the run of digits, and any other
/// character ends it.
pub open spec fn scan_step(st: JsonScan, c: char) -> JsonScan {
    if st.in_string {
        if st.escaped {
            JsonScan { escaped: false, ..st }
        } else if c == '\\' {
            JsonScan { escaped: true, ..st }
        } else if c == '"' {
            JsonScan { in_string: false, ..st }
        } else {
            st
        }
    } else if c == '"' {
        JsonScan { in_string: true, escaped: false, run: 0, longest: st.longest }
    } else if is_digit(c) {
        JsonScan {
            run: st.run + 1,
            longest: if st.run + 1 > st.longest {
                st.run + 1
            } else {
                st.longest
            },
            ..st
        }
    } else {
        JsonScan { run: 0, ..st }
    }
}

/// The scan of a text, from its first character to its last.
pub open spec fn scanned(text: Seq<char>) -> JsonScan
    decreases text.len(),
{
    if text.len() == 0 {
        JsonScan { in_string: false, escaped: false, run: 0, longest: 0 }
    } else {
        scan_step(scanned(text.drop_last()), text.last())
    }
}

/// The longest run of ASCII digits that a text holds outside its strings.
pub open spec fn longest_digit_run(text: Seq<char>) -> nat {
    scanned(text).longest
}

/// Whether the `json` crate can be asked to read a text: no run of digits
/// outside its strings is longer than [`JSON_DIGIT_LIMIT`]. A text with a
/// digit outside a string writes no array of strings, whatever else it
/// writes.
pub open spec fn json_readable(text: Seq<char>) -> bool {
    longest_digit_run(text) <= JSON_DIGIT_LIMIT
}

/// `json::parse`: the shape of the value that `text` writes. A string item
/// is one for which `JsonValue::as_str` gives the string.
///
/// The parser lowers a sixteen-bit exponent once for each digit of a
/// fraction, so a number may not have more than [`JSON_DIGIT_LIMIT`] digits
/// in a row. The parser reads numbers outside strings only, and tells
/// strings as [`scan_step`] does, up to where it gives up.
#[verifier::external_body]
fn parse_json(text: &str) -> (r: Option<JsonShape>)
    requires
        json_readable(text@),
    ensures
        r.deep_view() == json_parse(text@),
{
    match json::parse(text) {
        Err(_) => None,
        Ok(json::JsonValue::Array(items)) => Some(
            JsonShape::Array(items.iter().map(|i| i.as_str().map(|s| s.to_string())).collect()),
        ),
        Ok(_) => Some(JsonShape::Other),
    }
}

/// Whether the `json` crate can be asked to read a text.
pub fn can_read_json(text: &str) -> (r: bool)
    ensures
        r == json_readable(text@),
{
    let v = chars_of(text);
    let mut in_string = false;
    let mut escaped = false;
    let mut run: usize = 0;
    let mut longest: usize = 0;
    let mut i: usize = 0;
    assert(v@.take(0) =~= Seq::<char>::empty());
    while i < v.len()
        invariant
            i <= v.len(),
            run <= i,
            longest <= i,
            scanned(v@.take(i as int)) == (JsonScan {
                in_string,
                escaped,
                run: run as nat,
                longest: longest as nat,
            }),
        decreases v.len() - i,
    {
        let c = v[i];
        proof {
            assert(v@.take(i + 1).drop_last() =~= v@.take(i as int));
            assert(v@.take(i + 1).last() == c);
        }
        if in_string {
            if escaped {
                escaped = false;
            } else if c == '\\' {
                escaped = true;
            } else if c == '"' {
                in_string = false;
            }
        } else if c == '"' {
            in_string = true;
            escaped = false;
            run = 0;
        } else if char_is_digit(c) {
            run = run + 1;
            if run > longest {
                longest = run;
            }
        } else {
            run = 0;
        }
        i += 1;
    }
    assert(v@.take(v.len() as int) =~= v@);
    longest <= JSON_DIGIT_LIMIT
}

/// The label that marks the containers of a prefix.
pub open spec fn enabled_label(prefix: Seq<char>) -> Seq<char> {
    prefix + ".enabled=true"@
}

/// The filter by which the containers of `prefix` are listed.
pub fn label_filter(prefix: &str) -> (r: String)
    ensures
        r@ == enabled_label(prefix@),
{
    let mut out = String::from_str(prefix);
    out.append(".enabled=true");
    out
}

/// Whether every item of a JSON array is a string.
pub open spec fn all_strings(items: Seq<Option<Seq<char>>>) -> bool {
    forall|i: int| 0 <= i < items.len() ==> (#[trigger] items[i]) is Some
}

/// The strings of an array of strings.
pub open spec fn strings_of(items: Seq<Option<Seq<char>>>) -> Seq<Seq<char>> {
    Seq::new(items.len(), |i: int| items[i]->0)
}

/// The values of a multi-valued label: the items of the JSON array of
/// strings that the label holds, or else the label as it stands.
pub open spec fn list_or_raw(parsed: Option<JsonModel>, raw: Seq<char>) -> Seq<Seq<char>> {
    match parsed {
        Some(JsonModel::Array(items)) => if all_strings(items) {
            strings_of(items)
        } else {
            seq![raw]
        },
        _ => seq![raw],
    }
}

/// Whether a parameter may hold several values.
pub open spec fn is_multi(param: Seq<char>) -> bool {
    param == "volume"@ || param == "network"@ || param == "environment"@
}

/// The values that a label gives to a parameter: of a parameter that may
/// hold several values, what the value reads as in JSON; otherwise the
/// value as it stands. A value with a run of digits too long for the `json`
/// crate, which writes no array of strings, stands for itself as well.
pub open spec fn label_values(param: Seq<char>, value: Seq<char>) -> Seq<Seq<char>> {
    if is_multi(param) && json_readable(value) {
        list_or_raw(json_parse(value), value)
    } else {
        seq![value]
    }
}

/// The kind, the job name and the parameter of a label key, where the key
/// has exactly four dotted segments and the first is one of the prefixes.
pub open spec fn label_parts(prefixes: Seq<Seq<char>>, key: Seq<char>) -> Option<
    (Seq<char>, Seq<char>, Seq<char>),
> {
    let parts = split_on(key, '.');
    if parts.len() == 4 && prefixes.contains(parts[0]) {
        Some((parts[1], parts[2], parts[3]))
    } else {
        None
    }
}

/// The key of a job: the container, the kind and the job name, joined by
/// underscores.
pub open spec fn job_key(id: Seq<char>, kind: Seq<char>, name: Seq<char>) -> Seq<char> {
    id + "_"@ + kind + "_"@ + name
}

/// The attributes that a job has when it is first seen: its kind, its name
/// and, unless it runs on the host, its container.
pub open spec fn seeded(id: Seq<char>, kind: Seq<char>, name: Seq<char>) -> AttrModel {
    let base = seq![("kind"@, seq![kind]), ("name"@, seq![name])];
    if kind == LOCAL_KIND@ {
        base
    } else {
        base.push(("container"@, seq![id]))
    }
}

/// The attributes of a job after one more label:
/// - a kind other than the recorded one is a conflict;
/// - a parameter that is already set keeps its values, and the label has to
///   repeat one of them (a `container` label that repeats the container
///   itself is passed over);
/// - any other parameter is set to the values of the label.
pub open spec fn with_parameter(
    info: AttrModel,
    kind: Seq<char>,
    param: Seq<char>,
    key: Seq<char>,
    value: Seq<char>,
) -> Result<AttrModel, ErrorModel> {
    if !(lookup(info, "kind"@) matches Some(kinds) && kinds.contains(kind)) {
        Err((Fault::ConflictingKinds, key))
    } else {
        match lookup(info, param) {
            Some(existing) => if existing.contains(value) {
                Ok(info)
            } else {
                Err((Fault::ConflictingValues, key))
            },
            None => Ok(put(info, param, label_values(param, value))),
        }
    }
}

/// The normalized map after one more label of the container `id`. A label
/// that is no job parameter changes nothing, and neither does one of a host
/// job unless such jobs are allowed.
pub open spec fn apply_label(
    jobs: JobsModel,
    prefixes: Seq<Seq<char>>,
    allow_unsafe: bool,
    id: Seq<char>,
    key: Seq<char>,
    value: Seq<char>,
) -> Result<JobsModel, ErrorModel> {
    match label_parts(prefixes, key) {
        None => Ok(jobs),
        Some((kind, name, param)) => if !allow_unsafe && kind == LOCAL_KIND@ {
            Ok(jobs)
        } else {
            let at = job_key(id, kind, name);
            let info = match lookup(jobs, at) {
                Some(known) => known,
                None => seeded(id, kind, name),
            };
            match with_parameter(info, kind, param, key, value) {
                Ok(next) => Ok(put(jobs, at, next)),
                Err(e) => Err(e),
            }
        },
    }
}

/// The normalized map after the labels of the container `id`, read in
/// order up to the first error.
pub open spec fn apply_labels(
    jobs: JobsModel,
    prefixes: Seq<Seq<char>>,
    allow_unsafe: bool,
    id: Seq<char>,
    labels: Seq<(Seq<char>, Seq<char>)>,
) -> Result<JobsModel, ErrorModel>
    decreases labels.len(),
{
    if labels.len() == 0 {
        Ok(jobs)
    } else {
        match apply_labels(jobs, prefixes, allow_unsafe, id, labels.drop_last()) {
            Ok(before) => apply_label(
                before,
                prefixes,
                allow_unsafe,
                id,
                labels.last().0,
                labels.last().1,
            ),
            Err(e) => Err(e),
        }
    }
}

/// The state of a scan: the normalized map so far, and the containers
/// already read.
pub struct ScanModel {
    pub jobs: JobsModel,
    pub seen: Seq<Seq<char>>,
}

/// The scan after one more container: a container already read is passed
/// over.
pub open spec fn apply_container(
    scan: ScanModel,
    prefixes: Seq<Seq<char>>,
    allow_unsafe: bool,
    container: ContainerModel,
) -> Result<ScanModel, ErrorModel> {
    if scan.seen.contains(container.id) {
        Ok(scan)
    } else {
        match apply_labels(scan.jobs, prefixes, allow_unsafe, container.id, container.labels) {
            Ok(jobs) => Ok(ScanModel { jobs, seen: scan.seen.push(container.id) }),
            Err(e) => Err(e),
        }
    }
}

/// The scan after a list of containers, read in order up to the first
/// error.
pub open spec fn apply_containers(
    scan: ScanModel,
    prefixes: Seq<Seq<char>>,
    allow_unsafe: bool,
    containers: Seq<ContainerModel>,
) -> Result<ScanModel, ErrorModel>
    decreases containers.len(),
{
    if containers.len() == 0 {
        Ok(scan)
    } else {
        match apply_containers(scan, prefixes, allow_unsafe, containers.drop_last()) {
            Ok(before) => apply_container(before, prefixes, allow_unsafe, containers.last()),
            Err(e) => Err(e),
        }
    }
}

/// The containers listed for the prefix at place `i`: none where the
/// listing failed or is missing.
pub open spec fn listing_of(listings: Seq<Option<Seq<ContainerModel>>>, i: int) -> Option<
    Seq<ContainerModel>,
> {
    if 0 <= i < listings.len() {
        listings[i]
    } else {
        None
    }
}

/// The scan after the listings of the first `n` prefixes, read in order up
/// to the first error. A prefix whose listing failed is an error.
pub open spec fn apply_listings(
    listings: Seq<Option<Seq<ContainerModel>>>,
    prefixes: Seq<Seq<char>>,
    allow_unsafe: bool,
    n: nat,
) -> Result<ScanModel, ErrorModel>
    decreases n,
{
    if n == 0 {
        Ok(ScanModel { jobs: Seq::empty(), seen: Seq::empty() })
    } else {
        match apply_listings(listings, prefixes, allow_unsafe, (n - 1) as nat) {
            Ok(before) => match listing_of(listings, n - 1) {
                Some(containers) => apply_containers(before, prefixes, allow_unsafe, containers),
                None => Err((Fault::ContainerListing, prefixes[n - 1])),
            },
            Err(e) => Err(e),
        }
    }
}

/// The normalized map that the listings of all the prefixes give.
pub open spec fn tagged_targets(
    listings: Seq<Option<Seq<ContainerModel>>>,
    prefixes: Seq<Seq<char>>,
    allow_unsafe: bool,
) -> Result<JobsModel, ErrorModel> {
    match apply_listings(listings, prefixes, allow_unsafe, prefixes.len()) {
        Ok(scan) => Ok(scan.jobs),
        Err(e) => Err(e),
    }
}

/// The values of a multi-valued label, from what the `json` crate reads it
/// as: the items of an array of strings, or else the label as it stands.
pub fn string_list_or_raw(parsed: Option<JsonShape>, raw: &str) -> (r: Vec<String>)
    ensures
        r.deep_view() == list_or_raw(parsed.deep_view(), raw@),
{
    let ghost shape = parsed.deep_view();
    match parsed {
        Some(JsonShape::Array(items)) => {
            let ghost model = items.deep_view();
            let mut out: Vec<String> = Vec::new();
            let mut i: usize = 0;
            while i < items.len()
                invariant
                    i <= items.len(),
                    model == items.deep_view(),
                    shape == Some(JsonModel::Array(model)),
                    shape == parsed.deep_view(),
                    out.len() == i,
                    forall|j: int| 0 <= j < i ==> (#[trigger] model[j]) is Some,
                    forall|j: int| 0 <= j < i ==> out@[j]@ == (#[trigger] model[j])->0,
                decreases items.len() - i,
            {
                match &items[i] {
                    Some(text) => {
                        assert(model[i as int] == Some(text@));
                        out.push(text.clone());
                    },
                    None => {
                        assert(model[i as int] is None);
                        let mut single: Vec<String> = Vec::new();
                        single.push(String::from_str(raw));
                        assert(single.deep_view() =~= seq![raw@]);
                        return single;
                    },
                }
                i += 1;
            }
            assert(out.deep_view() =~= strings_of(model));
            out
        },
        _ => {
            let mut single: Vec<String> = Vec::new();
            single.push(String::from_str(raw));
            assert(single.deep_view() =~= seq![raw@]);
            single
        },
    }
}

/// A list that holds `s` and nothing else.
pub fn single(s: &str) -> (r: Vec<String>)
    ensures
        r.deep_view() == seq![s@],
{
    let mut out: Vec<String> = Vec::new();
    out.push(String::from_str(s));
    assert(out.deep_view() =~= seq![s@]);
    out
}

/// The attributes that a job has when it is first seen.
fn seed(id: &str, kind: &str, name: &str) -> (r: Attributes)
    ensures
        r@ == seeded(id@, kind@, name@),
{
    proof {
        reveal_strlit("kind");
        reveal_strlit("name");
        reveal_strlit("container");
        assert("kind"@[0] != "name"@[0]);
    }
    let mut out: Attributes = KeyedList::new();
    out.insert(String::from_str("kind"), single(kind));
    out.insert(String::from_str("name"), single(name));
    assert(out@ =~= seq![("kind"@, seq![kind@]), ("name"@, seq![name@])]);
    if !str_eq(kind, LOCAL_KIND) {
        let ghost base = out@;
        assert(!has_key(base, "container"@)) by {
            if has_key(base, "container"@) {
                let i = index_of(base, "container"@);
                assert(base[i].0.len() == 4);
            }
        }
        out.insert(String::from_str("container"), single(id));
    }
    out
}

/// The values that a label gives to a parameter.
fn values_of(param: &str, value: &str) -> (r: Vec<String>)
    ensures
        r.deep_view() == label_values(param@, value@),
{
    let multi = str_eq(param, "volume") || str_eq(param, "network") || str_eq(
        param,
        "environment",
    );
    if multi && can_read_json(value) {
        string_list_or_raw(parse_json(value), value)
    } else {
        single(value)
    }
}

/// What there is to remark on one more parameter of a job: that the
/// parameter is set already, unless the label only repeats the container
/// of the job.
pub open spec fn parameter_notice(
    info: AttrModel,
    kind: Seq<char>,
    param: Seq<char>,
    key: Seq<char>,
    value: Seq<char>,
) -> Option<WarningModel> {
    if !(lookup(info, "kind"@) matches Some(kinds) && kinds.contains(kind)) {
        None
    } else {
        match lookup(info, param) {
            Some(existing) => if param == "container"@ && existing.len() == 1
                && existing.contains(value) {
                None
            } else {
                Some((Notice::RepeatedParameter, key))
            },
            None => None,
        }
    }
}

/// What there is to remark on one more label of the container `id`, for a
/// scan that has read the jobs `jobs`: a label of a host job that is
/// passed over, and a parameter that is set already.
pub open spec fn label_notice(
    jobs: JobsModel,
    prefixes: Seq<Seq<char>>,
    allow_unsafe: bool,
    id: Seq<char>,
    key: Seq<char>,
    value: Seq<char>,
) -> Option<WarningModel> {
    match label_parts(prefixes, key) {
        None => None,
        Some((kind, name, param)) => if !allow_unsafe && kind == LOCAL_KIND@ {
            Some((Notice::UnsafeLabel, key))
        } else {
            let info = match lookup(jobs, job_key(id, kind, name)) {
                Some(known) => known,
                None => seeded(id, kind, name),
            };
            parameter_notice(info, kind, param, key, value)
        },
    }
}

/// The remarks on the labels of the container `id`, read in order up to
/// the first error.
pub open spec fn labels_notices(
    jobs: JobsModel,
    prefixes: Seq<Seq<char>>,
    allow_unsafe: bool,
    id: Seq<char>,
    labels: Seq<(Seq<char>, Seq<char>)>,
) -> Seq<WarningModel>
    decreases labels.len(),
{
    if labels.len() == 0 {
        Seq::empty()
    } else {
        noted(label_notice(jobs, prefixes, allow_unsafe, id, labels[0].0, labels[0].1)) + (
        match apply_label(jobs, prefixes, allow_unsafe, id, labels[0].0, labels[0].1) {
            Ok(next) => labels_notices(next, prefixes, allow_unsafe, id, labels.drop_first()),
            Err(_) => Seq::empty(),
        })
    }
}

/// The remarks on a container: none where it was read before.
pub open spec fn container_notices(
    scan: ScanModel,
    prefixes: Seq<Seq<char>>,
    allow_unsafe: bool,
    container: ContainerModel,
) -> Seq<WarningModel> {
    if scan.seen.contains(container.id) {
        Seq::empty()
    } else {
        labels_notices(scan.jobs, prefixes, allow_unsafe, container.id, container.labels)
    }
}

/// The remarks on a list of containers, read in order up to the first
/// error.
pub open spec fn containers_notices(
    scan: ScanModel,
    prefixes: Seq<Seq<char>>,
    allow_unsafe: bool,
    containers: Seq<ContainerModel>,
) -> Seq<WarningModel>
    decreases containers.len(),
{
    if containers.len() == 0 {
        Seq::empty()
    } else {
        container_notices(scan, prefixes, allow_unsafe, containers[0]) + (match apply_container(
            scan,
            prefixes,
            allow_unsafe,
            containers[0],
        ) {
            Ok(next) => containers_notices(next, prefixes, allow_unsafe, containers.drop_first()),
            Err(_) => Seq::empty(),
        })
    }
}

/// The remarks on the listings of the prefixes from the place `from` on,
/// read in order up to the first error.
pub open spec fn listings_notices(
    scan: ScanModel,
    listings: Seq<Option<Seq<ContainerModel>>>,
    prefixes: Seq<Seq<char>>,
    allow_unsafe: bool,
    from: nat,
) -> Seq<WarningModel>
    decreases prefixes.len() - from,
{
    if from >= prefixes.len() {
        Seq::empty()
    } else {
        match listing_of(listings, from as int) {
            None => Seq::empty(),
            Some(containers) => containers_notices(scan, prefixes, allow_unsafe, containers) + (
            match apply_containers(scan, prefixes, allow_unsafe, containers) {
                Ok(next) => listings_notices(
                    next,
                    listings,
                    prefixes,
                    allow_unsafe,
                    from + 1,
                ),
                Err(_) => Seq::empty(),
            }),
        }
    }
}

/// The remarks on the labels of the listed containers.
pub open spec fn label_notices(
    listings: Seq<Option<Seq<ContainerModel>>>,
    prefixes: Seq<Seq<char>>,
    allow_unsafe: bool,
) -> Seq<WarningModel> {
    listings_notices(
        ScanModel { jobs: Seq::empty(), seen: Seq::empty() },
        listings,
        prefixes,
        allow_unsafe,
        0,
    )
}

/// Reads one more parameter of a job from a label, and adds to `log` what
/// there is to remark.
fn set_parameter(
    info: Attributes,
    kind: &str,
    param: &str,
    key: &str,
    value: &str,
    log: &mut Vec<Warning>,
) -> (r: Result<Attributes, Error>)
    ensures
        match r {
            Ok(next) => with_parameter(info@, kind@, param@, key@, value@) == Ok::<
                AttrModel,
                ErrorModel,
            >(next@),
            Err(e) => with_parameter(info@, kind@, param@, key@, value@) == Err::<
                AttrModel,
                ErrorModel,
            >(e@),
        },
        final(log).deep_view() == old(log).deep_view() + noted(
            parameter_notice(info@, kind@, param@, key@, value@),
        ),
{
    let same_kind = match info.get("kind") {
        Some(kinds) => contains_str(kinds, kind),
        None => false,
    };
    if !same_kind {
        note(log, None);
        return Err(Error::new(Fault::ConflictingKinds, key));
    }
    let known = match info.get(param) {
        Some(existing) => {
            let repeats = contains_str(existing, value);
            let implied = str_eq(param, "container") && existing.len() == 1 && repeats;
            Some((repeats, implied))
        },
        None => None,
    };
    match known {
        Some((repeats, implied)) => {
            if implied {
                note(log, None);
            } else {
                note(log, Some(Warning::new(Notice::RepeatedParameter, key)));
            }
            if repeats {
                Ok(info)
            } else {
                Err(Error::new(Fault::ConflictingValues, key))
            }
        },
        None => {
            note(log, None);
            let mut info = info;
            info.insert(String::from_str(param), values_of(param, value));
            Ok(info)
        },
    }
}

/// Reads one label of the container `id` into the normalized map, and
/// hands the map back. What there is to remark on the label is added to
/// `log`.
pub fn ingest_label(
    jobs: NormalizedMap,
    prefixes: &Vec<String>,
    allow_unsafe: bool,
    id: &str,
    key: &str,
    value: &str,
    log: &mut Vec<Warning>,
) -> (r: Result<NormalizedMap, Error>)
    ensures
        match r {
            Ok(next) => apply_label(jobs@, prefixes.deep_view(), allow_unsafe, id@, key@, value@)
                == Ok::<JobsModel, ErrorModel>(next@),
            Err(e) => apply_label(jobs@, prefixes.deep_view(), allow_unsafe, id@, key@, value@)
                == Err::<JobsModel, ErrorModel>(e@),
        },
        final(log).deep_view() == old(log).deep_view() + noted(
            label_notice(jobs@, prefixes.deep_view(), allow_unsafe, id@, key@, value@),
        ),
{
    let parts = split(key, '.');
    if parts.len() != 4 || !contains_str(prefixes, parts[0].as_str()) {
        note(log, None);
        return Ok(jobs);
    }
    let kind = parts[1].as_str();
    let name = parts[2].as_str();
    let param = parts[3].as_str();
    assert(label_parts(prefixes.deep_view(), key@) == Some((kind@, name@, param@)));
    if !allow_unsafe && str_eq(kind, LOCAL_KIND) {
        note(log, Some(Warning::new(Notice::UnsafeLabel, key)));
        return Ok(jobs);
    }
    let mut at = String::from_str(id);
    at.append("_");
    at.append(kind);
    at.append("_");
    at.append(name);
    let mut jobs = jobs;
    let ghost before = jobs@;
    match jobs.position(at.as_str()) {
        Some(place) => {
            let info = jobs.replace_at(place, KeyedList::new());
            let next = set_parameter(info, kind, param, key, value, log)?;
            let ghost after = next@;
            jobs.replace_at(place, next);
            assert(jobs@ =~= put(before, at@, after));
        },
        None => {
            let next = set_parameter(seed(id, kind, name), kind, param, key, value, log)?;
            jobs.insert(at, next);
        },
    }
    Ok(jobs)
}

/// The state of a scan: the normalized map so far, and the identifiers of
/// the containers already read.
pub struct Scan {
    pub jobs: NormalizedMap,
    pub seen: Vec<String>,
}

impl View for Scan {
    type V = ScanModel;

    open spec fn view(&self) -> ScanModel {
        ScanModel { jobs: self.jobs@, seen: self.seen.deep_view() }
    }
}

/// Reads the labels of one container into the scan, unless the container
/// was read before, and hands the scan back. What there is to remark on
/// the labels is added to `log`.
pub fn ingest_container(
    scan: Scan,
    prefixes: &Vec<String>,
    allow_unsafe: bool,
    container: &Container,
    log: &mut Vec<Warning>,
) -> (r: Result<Scan, Error>)
    ensures
        match r {
            Ok(next) => apply_container(
                scan@,
                prefixes.deep_view(),
                allow_unsafe,
                container.deep_view(),
            ) == Ok::<ScanModel, ErrorModel>(next@),
            Err(e) => apply_container(
                scan@,
                prefixes.deep_view(),
                allow_unsafe,
                container.deep_view(),
            ) == Err::<ScanModel, ErrorModel>(e@),
        },
        final(log).deep_view() == old(log).deep_view() + container_notices(
            scan@,
            prefixes.deep_view(),
            allow_unsafe,
            container.deep_view(),
        ),
{
    let ghost logged = log.deep_view();
    if contains_str(&scan.seen, container.id.as_str()) {
        assert(logged + Seq::<WarningModel>::empty() =~= logged);
        return Ok(scan);
    }
    let ghost start = scan@;
    let ghost labels = container.labels.deep_view();
    let mut jobs = scan.jobs;
    let mut seen = scan.seen;
    seen.push(container.id.clone());
    assert(seen.deep_view() =~= start.seen.push(container.id@));
    let mut i: usize = 0;
    assert(labels.take(0) =~= Seq::<(Seq<char>, Seq<char>)>::empty());
    assert(labels.skip(0) =~= labels);
    while i < container.labels.len()
        invariant
            i <= container.labels.len(),
            labels == container.labels.deep_view(),
            start == scan@,
            logged == old(log).deep_view(),
            seen.deep_view() == start.seen.push(container.id@),
            !start.seen.contains(container.id@),
            apply_labels(
                start.jobs,
                prefixes.deep_view(),
                allow_unsafe,
                container.id@,
                labels.take(i as int),
            ) == Ok::<JobsModel, ErrorModel>(jobs@),
            log.deep_view() + labels_notices(
                jobs@,
                prefixes.deep_view(),
                allow_unsafe,
                container.id@,
                labels.skip(i as int),
            ) == logged + labels_notices(
                start.jobs,
                prefixes.deep_view(),
                allow_unsafe,
                container.id@,
                labels,
            ),
        decreases container.labels.len() - i,
    {
        let ghost so_far = log.deep_view();
        let ghost state = jobs@;
        proof {
            assert(labels.take(i + 1).drop_last() =~= labels.take(i as int));
            assert(labels.take(i + 1).last() == labels[i as int]);
            assert(labels[i as int] == (
                container.labels@[i as int].0@,
                container.labels@[i as int].1@,
            ));
            assert(labels.skip(i as int)[0] == labels[i as int]);
            assert(labels.skip(i as int).drop_first() =~= labels.skip(i + 1));
        }
        match ingest_label(
            jobs,
            prefixes,
            allow_unsafe,
            container.id.as_str(),
            container.labels[i].0.as_str(),
            container.labels[i].1.as_str(),
            log,
        ) {
            Ok(next) => {
                jobs = next;
                proof {
                    let head = noted(
                        label_notice(
                            state,
                            prefixes.deep_view(),
                            allow_unsafe,
                            container.id@,
                            labels[i as int].0,
                            labels[i as int].1,
                        ),
                    );
                    let rest = labels_notices(
                        jobs@,
                        prefixes.deep_view(),
                        allow_unsafe,
                        container.id@,
                        labels.skip(i + 1),
                    );
                    assert((so_far + head) + rest =~= so_far + (head + rest));
                }
            },
            Err(e) => {
                proof {
                    lemma_labels_fail(
                        start.jobs,
                        prefixes.deep_view(),
                        allow_unsafe,
                        container.id@,
                        labels,
                        i + 1,
                    );
                    let head = noted(
                        label_notice(
                            state,
                            prefixes.deep_view(),
                            allow_unsafe,
                            container.id@,
                            labels[i as int].0,
                            labels[i as int].1,
                        ),
                    );
                    assert(head + Seq::<WarningModel>::empty() =~= head);
                }
                return Err(e);
            },
        }
        i += 1;
    }
    assert(labels.take(labels.len() as int) =~= labels);
    assert(log.deep_view() + Seq::<WarningModel>::empty() =~= log.deep_view());
    Ok(Scan { jobs, seen })
}

/// An error among the first labels is the error of all of them.
proof fn lemma_labels_fail(
    jobs: JobsModel,
    prefixes: Seq<Seq<char>>,
    allow_unsafe: bool,
    id: Seq<char>,
    labels: Seq<(Seq<char>, Seq<char>)>,
    n: int,
)
    requires
        0 <= n <= labels.len(),
        apply_labels(jobs, prefixes, allow_unsafe, id, labels.take(n)) is Err,
    ensures
        apply_labels(jobs, prefixes, allow_unsafe, id, labels) == apply_labels(
            jobs,
            prefixes,
            allow_unsafe,
            id,
            labels.take(n),
        ),
    decreases labels.len() - n,
{
    if n < labels.len() {
        assert(labels.take(n + 1).drop_last() =~= labels.take(n));
        lemma_labels_fail(jobs, prefixes, allow_unsafe, id, labels, n + 1);
    } else {
        assert(labels.take(n) =~= labels);
    }
}

/// An error among the first containers is the error of all of them.
proof fn lemma_containers_fail(
    scan: ScanModel,
    prefixes: Seq<Seq<char>>,
    allow_unsafe: bool,
    containers: Seq<ContainerModel>,
    n: int,
)
    requires
        0 <= n <= containers.len(),
        apply_containers(scan, prefixes, allow_unsafe, containers.take(n)) is Err,
    ensures
        apply_containers(scan, prefixes, allow_unsafe, containers) == apply_containers(
            scan,
            prefixes,
            allow_unsafe,
            containers.take(n),
        ),
    decreases containers.len() - n,
{
    if n < containers.len() {
        assert(containers.take(n + 1).drop_last() =~= containers.take(n));
        lemma_containers_fail(scan, prefixes, allow_unsafe, containers, n + 1);
    } else {
        assert(containers.take(n) =~= containers);
    }
}

/// An error among the first listings is the error of all of them.
proof fn lemma_listings_fail(
    listings: Seq<Option<Seq<ContainerModel>>>,
    prefixes: Seq<Seq<char>>,
    allow_unsafe: bool,
    n: nat,
    m: nat,
)
    requires
        n <= m,
        apply_listings(listings, prefixes, allow_unsafe, n) is Err,
    ensures
        apply_listings(listings, prefixes, allow_unsafe, m) == apply_listings(
            listings,
            prefixes,
            allow_unsafe,
            n,
        ),
    decreases m - n,
{
    if n < m {
        lemma_listings_fail(listings, prefixes, allow_unsafe, n, (m - 1) as nat);
    }
}

/// Reads the containers listed for one prefix, and adds to `log` what
/// there is to remark on their labels.
fn ingest_containers(
    scan: Scan,
    prefixes: &Vec<String>,
    allow_unsafe: bool,
    containers: &Vec<Container>,
    log: &mut Vec<Warning>,
) -> (r: Result<Scan, Error>)
    ensures
        match r {
            Ok(next) => apply_containers(
                scan@,
                prefixes.deep_view(),
                allow_unsafe,
                containers.deep_view(),
            ) == Ok::<ScanModel, ErrorModel>(next@),
            Err(e) => apply_containers(
                scan@,
                prefixes.deep_view(),
                allow_unsafe,
                containers.deep_view(),
            ) == Err::<ScanModel, ErrorModel>(e@),
        },
        final(log).deep_view() == old(log).deep_view() + containers_notices(
            scan@,
            prefixes.deep_view(),
            allow_unsafe,
            containers.deep_view(),
        ),
{
    let ghost start = scan@;
    let ghost all = containers.deep_view();
    let ghost logged = log.deep_view();
    let mut state = scan;
    let mut i: usize = 0;
    assert(all.take(0) =~= Seq::<ContainerModel>::empty());
    assert(all.skip(0) =~= all);
    while i < containers.len()
        invariant
            i <= containers.len(),
            all == containers.deep_view(),
            start == scan@,
            logged == old(log).deep_view(),
            apply_containers(start, prefixes.deep_view(), allow_unsafe, all.take(i as int)) == Ok::<
                ScanModel,
                ErrorModel,
            >(state@),
            log.deep_view() + containers_notices(
                state@,
                prefixes.deep_view(),
                allow_unsafe,
                all.skip(i as int),
            ) == logged + containers_notices(start, prefixes.deep_view(), allow_unsafe, all),
        decreases containers.len() - i,
    {
        let ghost so_far = log.deep_view();
        let ghost before = state@;
        proof {
            assert(all.take(i + 1).drop_last() =~= all.take(i as int));
            assert(all.take(i + 1).last() == containers@[i as int].deep_view());
            assert(all.skip(i as int)[0] == all[i as int]);
            assert(all.skip(i as int).drop_first() =~= all.skip(i + 1));
        }
        let ghost head = container_notices(
            before,
            prefixes.deep_view(),
            allow_unsafe,
            all[i as int],
        );
        match ingest_container(state, prefixes, allow_unsafe, &containers[i], log) {
            Ok(next) => {
                state = next;
                proof {
                    let rest = containers_notices(
                        state@,
                        prefixes.deep_view(),
                        allow_unsafe,
                        all.skip(i + 1),
                    );
                    assert((so_far + head) + rest =~= so_far + (head + rest));
                }
            },
            Err(e) => {
                proof {
                    lemma_containers_fail(start, prefixes.deep_view(), allow_unsafe, all, i + 1);
                    assert(head + Seq::<WarningModel>::empty() =~= head);
                }
                return Err(e);
            },
        }
        i += 1;
    }
    assert(all.take(all.len() as int) =~= all);
    assert(log.deep_view() + Seq::<WarningModel>::empty() =~= log.deep_view());
    Ok(state)
}

/// Builds the normalized map from the labels of the containers listed for
/// each prefix, and adds to `log` what there is to remark on the labels.
/// `listings` holds, for the prefix at the same place of `label_prefixes`,
/// the containers that carry its `enabled` label, or `None` where the
/// runtime could not list them.
///
/// Prefixes are read in order and a container is read once, with the first
/// prefix that lists it. The result is the first error, if there is one: a
/// listing that failed, a job with two kinds, or a parameter with two
/// values.
pub fn scan_labels(
    listings: &Vec<Option<Vec<Container>>>,
    label_prefixes: &Vec<String>,
    allow_unsafe_jobs: bool,
    log: &mut Vec<Warning>,
) -> (r: Result<NormalizedMap, Error>)
    ensures
        match r {
            Ok(map) => tagged_targets(
                listings.deep_view(),
                label_prefixes.deep_view(),
                allow_unsafe_jobs,
            ) == Ok::<JobsModel, ErrorModel>(map@),
            Err(e) => tagged_targets(
                listings.deep_view(),
                label_prefixes.deep_view(),
                allow_unsafe_jobs,
            ) == Err::<JobsModel, ErrorModel>(e@),
        },
        final(log).deep_view() == old(log).deep_view() + label_notices(
            listings.deep_view(),
            label_prefixes.deep_view(),
            allow_unsafe_jobs,
        ),
{
    let seen: Vec<String> = Vec::new();
    assert(seen.deep_view() =~= Seq::<Seq<char>>::empty());
    let mut scan = Scan { jobs: KeyedList::new(), seen };
    let ghost lists = listings.deep_view();
    let ghost prefixes = label_prefixes.deep_view();
    let ghost logged = log.deep_view();
    let mut i: usize = 0;
    while i < label_prefixes.len()
        invariant
            i <= label_prefixes.len(),
            lists == listings.deep_view(),
            prefixes == label_prefixes.deep_view(),
            logged == old(log).deep_view(),
            apply_listings(lists, prefixes, allow_unsafe_jobs, i as nat) == Ok::<
                ScanModel,
                ErrorModel,
            >(scan@),
            log.deep_view() + listings_notices(scan@, lists, prefixes, allow_unsafe_jobs, i as nat)
                == logged + label_notices(lists, prefixes, allow_unsafe_jobs),
        decreases label_prefixes.len() - i,
    {
        let ghost so_far = log.deep_view();
        let ghost before = scan@;
        let listed = if i < listings.len() {
            assert(lists[i as int] == listings@[i as int].deep_view());
            match &listings[i] {
                Some(containers) => Some(containers),
                None => None,
            }
        } else {
            None
        };
        match listed {
            None => {
                proof {
                    lemma_listings_fail(
                        lists,
                        prefixes,
                        allow_unsafe_jobs,
                        (i + 1) as nat,
                        prefixes.len(),
                    );
                    assert(so_far + Seq::<WarningModel>::empty() =~= so_far);
                }
                return Err(Error::new(Fault::ContainerListing, label_prefixes[i].as_str()));
            },
            Some(containers) => {
                let ghost head = containers_notices(
                    before,
                    prefixes,
                    allow_unsafe_jobs,
                    containers.deep_view(),
                );
                match ingest_containers(scan, label_prefixes, allow_unsafe_jobs, containers, log) {
                    Ok(next) => {
                        scan = next;
                        proof {
                            let rest = listings_notices(
                                scan@,
                                lists,
                                prefixes,
                                allow_unsafe_jobs,
                                (i + 1) as nat,
                            );
                            assert((so_far + head) + rest =~= so_far + (head + rest));
                        }
                    },
                    Err(e) => {
                        proof {
                            lemma_listings_fail(
                                lists,
                                prefixes,
                                allow_unsafe_jobs,
                                (i + 1) as nat,
                                prefixes.len(),
                            );
                            assert(head + Seq::<WarningModel>::empty() =~= head);
                        }
                        return Err(e);
                    },
                }
            },
        }
        i += 1;
    }
    assert(log.deep_view() + Seq::<WarningModel>::empty() =~= log.deep_view());
    Ok(scan.jobs)
}

/// Builds the normalized map from the labels of the containers listed for
/// each prefix. `listings` holds, for the prefix at the same place of
/// `label_prefixes`, the containers that carry its `enabled` label, or
/// `None` where the runtime could not list them.
///
/// Prefixes are read in order and a container is read once, with the first
/// prefix that lists it. The result is the first error, if there is one: a
/// listing that failed, a job with two kinds, or a parameter with two
/// values.
pub fn get_tagged_targets(
    listings: &Vec<Option<Vec<Container>>>,
    label_prefixes: &Vec<String>,
    allow_unsafe_jobs: bool,
) -> (r: Result<NormalizedMap, Error>)
    ensures
        match r {
            Ok(map) => tagged_targets(
                listings.deep_view(),
                label_prefixes.deep_view(),
                allow_unsafe_jobs,
            ) == Ok::<JobsModel, ErrorModel>(map@),
            Err(e) => tagged_targets(
                listings.deep_view(),
                label_prefixes.deep_view(),
                allow_unsafe_jobs,
            ) == Err::<JobsModel, ErrorModel>(e@),
        },
{
    let mut log: Vec<Warning> = Vec::new();
    scan_labels(listings, label_prefixes, allow_unsafe_jobs, &mut log)
}

/// What there is to remark on the labels of the listed containers, up to
/// the first error.
pub fn label_warnings(
    listings: &Vec<Option<Vec<Container>>>,
    label_prefixes: &Vec<String>,
    allow_unsafe_jobs: bool,
) -> (r: Vec<Warning>)
    ensures
        r.deep_view() == label_notices(
            listings.deep_view(),
            label_prefixes.deep_view(),
            allow_unsafe_jobs,
        ),
{
    let mut log: Vec<Warning> = Vec::new();
    assert(log.deep_view() =~= Seq::<WarningModel>::empty());
    let _read = scan_labels(listings, label_prefixes, allow_unsafe_jobs, &mut log);
    assert(Seq::<WarningModel>::empty() + label_notices(
        listings.deep_view(),
        label_prefixes.deep_view(),
        allow_unsafe_jobs,
    ) =~= label_notices(listings.deep_view(), label_prefixes.deep_view(), allow_unsafe_jobs));
    log
}

/// A label whose key does not fall into exactly four dotted segments
/// changes nothing.
pub proof fn lemma_other_labels_ignored(
    jobs: JobsModel,
    prefixes: Seq<Seq<char>>,
    allow_unsafe: bool,
    id: Seq<char>,
    key: Seq<char>,
    value: Seq<char>,
)
    requires
        split_on(key, '.').len() != 4,
    ensures
        apply_label(jobs, prefixes, allow_unsafe, id, key, value) == Ok::<JobsModel, ErrorModel>(
            jobs,
        ),
{
}

/// A label of a host job changes nothing unless such jobs are allowed.
pub proof fn lemma_unsafe_labels_ignored(
    jobs: JobsModel,
    prefixes: Seq<Seq<char>>,
    id: Seq<char>,
    key: Seq<char>,
    value: Seq<char>,
)
    requires
        split_on(key, '.').len() == 4,
        split_on(key, '.')[1] == LOCAL_KIND@,
    ensures
        apply_label(jobs, prefixes, false, id, key, value) == Ok::<JobsModel, ErrorModel>(jobs),
{
}

/// Reading the value of a multi-valued label as JSON is a fallback: a
/// value that is no JSON array of strings stands for itself, and a new
/// parameter of a job of the recorded kind is set whatever its value.
pub proof fn lemma_json_is_a_fallback(
    info: AttrModel,
    kind: Seq<char>,
    param: Seq<char>,
    key: Seq<char>,
    value: Seq<char>,
)
    requires
        is_multi(param),
    ensures
        json_parse(value) is None ==> label_values(param, value) == seq![value],
        !json_readable(value) ==> label_values(param, value) == seq![value],
        !(json_parse(value) matches Some(JsonModel::Array(items)) && all_strings(items))
            ==> label_values(param, value) == seq![value],
        (lookup(info, "kind"@) matches Some(kinds) && kinds.contains(kind)) && lookup(info, param)
            is None ==> with_parameter(info, kind, param, key, value) == Ok::<
            AttrModel,
            ErrorModel,
        >(put(info, param, label_values(param, value))),
{
}

/// Whether the attributes are those of the job `name` of the kind `kind`
/// that the labels of the container `id` declare: no attribute stands
/// twice, the kind and the name are the ones of the job and nothing else,
/// and the container is `id` and nothing else, unless the job runs on the
/// host.
pub open spec fn seeded_as(
    info: AttrModel,
    id: Seq<char>,
    kind: Seq<char>,
    name: Seq<char>,
) -> bool {
    &&& keys_unique(info)
    &&& lookup(info, "kind"@) == Some(seq![kind])
    &&& lookup(info, "name"@) == Some(seq![name])
    &&& kind != LOCAL_KIND@ ==> lookup(info, "container"@) == Some(seq![id])
}

/// Whether an entry of the normalized map is a job as the labels of some
/// container declare it: it stands under the key of a container, a kind
/// and a name, its attributes are those of that job, and it runs on the
/// host only where that is allowed.
pub open spec fn job_in_order(entry: (Seq<char>, AttrModel), allow_unsafe: bool) -> bool {
    exists|id: Seq<char>, kind: Seq<char>, name: Seq<char>|
        entry.0 == #[trigger] job_key(id, kind, name) && seeded_as(entry.1, id, kind, name) && (
        allow_unsafe || kind != LOCAL_KIND@)
}

/// Whether every entry of the normalized map is a job in order.
pub open spec fn all_in_order(jobs: JobsModel, allow_unsafe: bool) -> bool {
    forall|i: int| 0 <= i < jobs.len() ==> job_in_order(#[trigger] jobs[i], allow_unsafe)
}

/// Whether every job has a kind and a name.
pub open spec fn all_named(jobs: JobsModel) -> bool {
    forall|i: int|
        0 <= i < jobs.len() ==> has_key((#[trigger] jobs[i]).1, "kind"@) && has_key(
            jobs[i].1,
            "name"@,
        )
}

/// The attributes that a job has when it is first seen are those of the
/// job.
proof fn lemma_seed_in_order(id: Seq<char>, kind: Seq<char>, name: Seq<char>)
    ensures
        seeded_as(seeded(id, kind, name), id, kind, name),
{
    reveal_strlit("kind");
    reveal_strlit("name");
    reveal_strlit("container");
    assert("kind"@[0] != "name"@[0]);
    assert("kind"@.len() != "container"@.len());
    assert("name"@.len() != "container"@.len());
    let s = seeded(id, kind, name);
    assert(s[0] == ("kind"@, seq![kind]));
    assert(s[1] == ("name"@, seq![name]));
    if kind != LOCAL_KIND@ {
        assert(s[2] == ("container"@, seq![id]));
        assert(keys_unique(s));
        lemma_index_of(s, 2);
    }
    assert(keys_unique(s));
    lemma_index_of(s, 0);
    lemma_index_of(s, 1);
}

/// One more parameter leaves the attributes those of the job.
proof fn lemma_parameter_in_order(
    info: AttrModel,
    id: Seq<char>,
    kind: Seq<char>,
    name: Seq<char>,
    asked: Seq<char>,
    param: Seq<char>,
    key: Seq<char>,
    value: Seq<char>,
)
    requires
        seeded_as(info, id, kind, name),
    ensures
        with_parameter(info, asked, param, key, value) matches Ok(next) ==> asked == kind
            && seeded_as(next, id, kind, name),
{
    match with_parameter(info, asked, param, key, value) {
        Ok(next) => {
            let kinds = lookup(info, "kind"@)->0;
            assert(kinds.contains(asked));
            assert(kinds[0] == kind);
            if next != info {
                lemma_put(info, param, label_values(param, value));
            }
        },
        Err(_) => {},
    }
}

/// A label leaves every job in order.
pub proof fn lemma_label_keeps_order(
    jobs: JobsModel,
    prefixes: Seq<Seq<char>>,
    allow_unsafe: bool,
    id: Seq<char>,
    key: Seq<char>,
    value: Seq<char>,
)
    requires
        all_in_order(jobs, allow_unsafe),
    ensures
        apply_label(jobs, prefixes, allow_unsafe, id, key, value) matches Ok(next)
            ==> all_in_order(next, allow_unsafe),
{
    let result = apply_label(jobs, prefixes, allow_unsafe, id, key, value);
    if result is Ok && result->Ok_0 != jobs {
        let (kind, name, param) = label_parts(prefixes, key)->0;
        let at = job_key(id, kind, name);
        if has_key(jobs, at) {
            let place = index_of(jobs, at);
            let info = jobs[place].1;
            assert(job_in_order(jobs[place], allow_unsafe));
            let (id0, kind0, name0) = choose|id0: Seq<char>, kind0: Seq<char>, name0: Seq<char>|
                jobs[place].0 == #[trigger] job_key(id0, kind0, name0) && seeded_as(
                    jobs[place].1,
                    id0,
                    kind0,
                    name0,
                ) && (allow_unsafe || kind0 != LOCAL_KIND@);
            lemma_parameter_in_order(info, id0, kind0, name0, kind, param, key, value);
            let next = with_parameter(info, kind, param, key, value)->Ok_0;
            let after = put(jobs, at, next);
            assert(after[place] == (at, next));
            assert(at == job_key(id0, kind0, name0));
            assert(job_in_order(after[place], allow_unsafe));
            assert forall|i: int| 0 <= i < after.len() implies job_in_order(
                #[trigger] after[i],
                allow_unsafe,
            ) by {
                if i != place {
                    assert(after[i] == jobs[i]);
                }
            }
        } else {
            let info = seeded(id, kind, name);
            lemma_seed_in_order(id, kind, name);
            lemma_parameter_in_order(info, id, kind, name, kind, param, key, value);
            let next = with_parameter(info, kind, param, key, value)->Ok_0;
            let after = put(jobs, at, next);
            assert(after[jobs.len() as int] == (at, next));
            assert(at == job_key(id, kind, name));
            assert(job_in_order(after[jobs.len() as int], allow_unsafe));
            assert forall|i: int| 0 <= i < after.len() implies job_in_order(
                #[trigger] after[i],
                allow_unsafe,
            ) by {
                if i < jobs.len() {
                    assert(after[i] == jobs[i]);
                }
            }
        }
    }
}

/// The labels of a container leave every job in order.
proof fn lemma_labels_keep_order(
    jobs: JobsModel,
    prefixes: Seq<Seq<char>>,
    allow_unsafe: bool,
    id: Seq<char>,
    labels: Seq<(Seq<char>, Seq<char>)>,
)
    requires
        all_in_order(jobs, allow_unsafe),
    ensures
        apply_labels(jobs, prefixes, allow_unsafe, id, labels) matches Ok(next) ==> all_in_order(
            next,
            allow_unsafe,
        ),
    decreases labels.len(),
{
    if labels.len() > 0 {
        lemma_labels_keep_order(jobs, prefixes, allow_unsafe, id, labels.drop_last());
        match apply_labels(jobs, prefixes, allow_unsafe, id, labels.drop_last()) {
            Ok(before) => lemma_label_keeps_order(
                before,
                prefixes,
                allow_unsafe,
                id,
                labels.last().0,
                labels.last().1,
            ),
            Err(_) => {},
        }
    }
}

/// A list of containers leaves every job in order.
proof fn lemma_containers_keep_order(
    scan: ScanModel,
    prefixes: Seq<Seq<char>>,
    allow_unsafe: bool,
    containers: Seq<ContainerModel>,
)
    requires
        all_in_order(scan.jobs, allow_unsafe),
    ensures
        apply_containers(scan, prefixes, allow_unsafe, containers) matches Ok(next)
            ==> all_in_order(next.jobs, allow_unsafe),
    decreases containers.len(),
{
    if containers.len() > 0 {
        lemma_containers_keep_order(scan, prefixes, allow_unsafe, containers.drop_last());
        match apply_containers(scan, prefixes, allow_unsafe, containers.drop_last()) {
            Ok(before) => lemma_labels_keep_order(
                before.jobs,
                prefixes,
                allow_unsafe,
                containers.last().id,
                containers.last().labels,
            ),
            Err(_) => {},
        }
    }
}

/// The listings of the first prefixes leave every job in order.
proof fn lemma_listings_keep_order(
    listings: Seq<Option<Seq<ContainerModel>>>,
    prefixes: Seq<Seq<char>>,
    allow_unsafe: bool,
    n: nat,
)
    ensures
        apply_listings(listings, prefixes, allow_unsafe, n) matches Ok(next) ==> all_in_order(
            next.jobs,
            allow_unsafe,
        ),
    decreases n,
{
    if n > 0 {
        lemma_listings_keep_order(listings, prefixes, allow_unsafe, (n - 1) as nat);
        match apply_listings(listings, prefixes, allow_unsafe, (n - 1) as nat) {
            Ok(before) => match listing_of(listings, n - 1) {
                Some(containers) => lemma_containers_keep_order(
                    before,
                    prefixes,
                    allow_unsafe,
                    containers,
                ),
                None => {},
            },
            Err(_) => {},
        }
    }
}

/// Every job that the labels declare is in order: it stands under the key
/// of its container, its kind and its name; its kind and its name are
/// those and nothing else; its container is the one that carries the
/// labels, unless the job runs on the host; and it runs on the host only
/// where that is allowed.
pub proof fn lemma_targets_are_in_order(
    listings: Seq<Option<Seq<ContainerModel>>>,
    prefixes: Seq<Seq<char>>,
    allow_unsafe: bool,
)
    ensures
        tagged_targets(listings, prefixes, allow_unsafe) matches Ok(jobs) ==> all_in_order(
            jobs,
            allow_unsafe,
        ),
{
    lemma_listings_keep_order(listings, prefixes, allow_unsafe, prefixes.len());
}

/// Every job that the labels declare has a kind and a name.
pub proof fn lemma_targets_are_named(
    listings: Seq<Option<Seq<ContainerModel>>>,
    prefixes: Seq<Seq<char>>,
    allow_unsafe: bool,
)
    ensures
        tagged_targets(listings, prefixes, allow_unsafe) matches Ok(jobs) ==> all_named(jobs),
{
    lemma_targets_are_in_order(listings, prefixes, allow_unsafe);
}

/// No job that the labels declare runs on the host, unless that is
/// allowed: no job names the kind of the host jobs.
pub proof fn lemma_no_host_job_unless_allowed(
    listings: Seq<Option<Seq<ContainerModel>>>,
    prefixes: Seq<Seq<char>>,
)
    ensures
        tagged_targets(listings, prefixes, false) matches Ok(jobs) ==> forall|i: int|
            0 <= i < jobs.len() ==> lookup((#[trigger] jobs[i]).1, "kind"@) != Some(
                seq![LOCAL_KIND@],
            ),
{
    lemma_targets_are_in_order(listings, prefixes, false);
    match tagged_targets(listings, prefixes, false) {
        Ok(jobs) => {
            assert forall|i: int| 0 <= i < jobs.len() implies lookup(
                (#[trigger] jobs[i]).1,
                "kind"@,
            ) != Some(seq![LOCAL_KIND@]) by {
                assert(job_in_order(jobs[i], false));
                let (id, kind, name) = choose|id: Seq<char>, kind: Seq<char>, name: Seq<char>|
                    jobs[i].0 == #[trigger] job_key(id, kind, name) && seeded_as(
                        jobs[i].1,
                        id,
                        kind,
                        name,
                    ) && (false || kind != LOCAL_KIND@);
                assert(seq![kind][0] == kind);
                if lookup(jobs[i].1, "kind"@) == Some(seq![LOCAL_KIND@]) {
                    assert(seq![kind] == seq![LOCAL_KIND@]);
                    assert(seq![LOCAL_KIND@][0] == LOCAL_KIND@);
                }
            }
        },
        Err(_) => {},
    }
}

/// A container with one more label, at the place `at` among its labels.
pub open spec fn with_label(
    container: ContainerModel,
    at: int,
    key: Seq<char>,
    value: Seq<char>,
) -> ContainerModel {
    ContainerModel { id: container.id, labels: container.labels.insert(at, (key, value)) }
}

/// One more label that is no job parameter, anywhere among the labels of a
/// container, changes nothing of what the labels give.
proof fn lemma_labels_with_other(
    jobs: JobsModel,
    prefixes: Seq<Seq<char>>,
    allow_unsafe: bool,
    id: Seq<char>,
    labels: Seq<(Seq<char>, Seq<char>)>,
    at: int,
    key: Seq<char>,
    value: Seq<char>,
)
    requires
        0 <= at <= labels.len(),
        split_on(key, '.').len() != 4,
    ensures
        apply_labels(jobs, prefixes, allow_unsafe, id, labels.insert(at, (key, value)))
            == apply_labels(jobs, prefixes, allow_unsafe, id, labels),
    decreases labels.len(),
{
    let more = labels.insert(at, (key, value));
    if at == labels.len() {
        assert(more.drop_last() =~= labels);
        assert(more.last() == (key, value));
    } else {
        assert(more.drop_last() =~= labels.drop_last().insert(at, (key, value)));
        assert(more.last() == labels.last());
        lemma_labels_with_other(
            jobs,
            prefixes,
            allow_unsafe,
            id,
            labels.drop_last(),
            at,
            key,
            value,
        );
    }
}

/// One more label that is no job parameter on one of the containers of a
/// list changes nothing of what the list gives.
proof fn lemma_containers_with_other(
    scan: ScanModel,
    prefixes: Seq<Seq<char>>,
    allow_unsafe: bool,
    containers: Seq<ContainerModel>,
    which: int,
    at: int,
    key: Seq<char>,
    value: Seq<char>,
)
    requires
        0 <= which < containers.len(),
        0 <= at <= containers[which].labels.len(),
        split_on(key, '.').len() != 4,
    ensures
        apply_containers(
            scan,
            prefixes,
            allow_unsafe,
            containers.update(which, with_label(containers[which], at, key, value)),
        ) == apply_containers(scan, prefixes, allow_unsafe, containers),
    decreases containers.len(),
{
    let more = containers.update(which, with_label(containers[which], at, key, value));
    if which == containers.len() - 1 {
        assert(more.drop_last() =~= containers.drop_last());
        assert(more.last() == with_label(containers.last(), at, key, value));
        match apply_containers(scan, prefixes, allow_unsafe, containers.drop_last()) {
            Ok(before) => lemma_labels_with_other(
                before.jobs,
                prefixes,
                allow_unsafe,
                containers.last().id,
                containers.last().labels,
                at,
                key,
                value,
            ),
            Err(_) => {},
        }
    } else {
        assert(more.drop_last() =~= containers.drop_last().update(
            which,
            with_label(containers[which], at, key, value),
        ));
        assert(more.last() == containers.last());
        assert(containers.drop_last()[which] == containers[which]);
        lemma_containers_with_other(
            scan,
            prefixes,
            allow_unsafe,
            containers.drop_last(),
            which,
            at,
            key,
            value,
        );
    }
}

/// One more label that is no job parameter on one of the listed containers
/// changes nothing of what the first listings give.
proof fn lemma_listings_with_other(
    listings: Seq<Option<Seq<ContainerModel>>>,
    prefixes: Seq<Seq<char>>,
    allow_unsafe: bool,
    n: nat,
    listing: int,
    which: int,
    at: int,
    key: Seq<char>,
    value: Seq<char>,
)
    requires
        0 <= listing < listings.len(),
        listings[listing] matches Some(containers) && 0 <= which < containers.len() && 0 <= at
            <= containers[which].labels.len(),
        split_on(key, '.').len() != 4,
    ensures
        apply_listings(
            with_listed_label(listings, listing, which, at, key, value),
            prefixes,
            allow_unsafe,
            n,
        ) == apply_listings(listings, prefixes, allow_unsafe, n),
    decreases n,
{
    if n > 0 {
        lemma_listings_with_other(
            listings,
            prefixes,
            allow_unsafe,
            (n - 1) as nat,
            listing,
            which,
            at,
            key,
            value,
        );
        if n - 1 == listing {
            match apply_listings(listings, prefixes, allow_unsafe, (n - 1) as nat) {
                Ok(before) => lemma_containers_with_other(
                    before,
                    prefixes,
                    allow_unsafe,
                    listings[listing]->0,
                    which,
                    at,
                    key,
                    value,
                ),
                Err(_) => {},
            }
        }
    }
}

/// The listings with one more label on the container at the place `which`
/// of the listing at the place `listing`.
pub open spec fn with_listed_label(
    listings: Seq<Option<Seq<ContainerModel>>>,
    listing: int,
    which: int,
    at: int,
    key: Seq<char>,
    value: Seq<char>,
) -> Seq<Option<Seq<ContainerModel>>> {
    let containers = listings[listing]->0;
    listings.update(
        listing,
        Some(containers.update(which, with_label(containers[which], at, key, value))),
    )
}

/// The whole scan ignores a label whose key does not fall into exactly
/// four dotted segments: with one more such label on any listed container,
/// at any place among its labels, the scan gives the same map or the same
/// error.
pub proof fn lemma_scan_ignores_other_labels(
    listings: Seq<Option<Seq<ContainerModel>>>,
    prefixes: Seq<Seq<char>>,
    allow_unsafe: bool,
    listing: int,
    which: int,
    at: int,
    key: Seq<char>,
    value: Seq<char>,
)
    requires
        0 <= listing < listings.len(),
        listings[listing] matches Some(containers) && 0 <= which < containers.len() && 0 <= at
            <= containers[which].labels.len(),
        split_on(key, '.').len() != 4,
    ensures
        tagged_targets(
            with_listed_label(listings, listing, which, at, key, value),
            prefixes,
            allow_unsafe,
        ) == tagged_targets(listings, prefixes, allow_unsafe),
{
    lemma_listings_with_other(
        listings,
        prefixes,
        allow_unsafe,
        prefixes.len(),
        listing,
        which,
        at,
        key,
        value,
    );
}

/// A label that sets, for the first time, a parameter that may hold several
/// values never fails, whatever its value: the parameter gets the items of
/// the JSON array of strings that the value writes, and otherwise the value
/// as it stands.
pub proof fn lemma_list_parameter_is_set(
    jobs: JobsModel,
    prefixes: Seq<Seq<char>>,
    allow_unsafe: bool,
    id: Seq<char>,
    key: Seq<char>,
    value: Seq<char>,
)
    requires
        keys_unique(jobs),
        label_parts(prefixes, key) matches Some((kind, name, param)) && is_multi(param) && (
        allow_unsafe || kind != LOCAL_KIND@) && ({
            let info = match lookup(jobs, job_key(id, kind, name)) {
                Some(known) => known,
                None => seeded(id, kind, name),
            };
            (lookup(info, "kind"@) matches Some(kinds) && kinds.contains(kind)) && lookup(
                info,
                param,
            ) is None
        }),
    ensures
        apply_label(jobs, prefixes, allow_unsafe, id, key, value) matches Ok(next) && ({
            let (kind, name, param) = label_parts(prefixes, key)->0;
            lookup(next, job_key(id, kind, name)) matches Some(info) && lookup(info, param)
                == Some(label_values(param, value))
        }),
        ({
            let (_, _, param) = label_parts(prefixes, key)->0;
            if json_readable(value) && (json_parse(value) matches Some(
                JsonModel::Array(items),
            ) && all_strings(items)) {
                label_values(param, value) == strings_of(json_parse(value)->0->Array_0)
            } else {
                label_values(param, value) == seq![value]
            }
        }),
{
    let (kind, name, param) = label_parts(prefixes, key)->0;
    let at = job_key(id, kind, name);
    let info = match lookup(jobs, at) {
        Some(known) => known,
        None => seeded(id, kind, name),
    };
    let values = label_values(param, value);
    let changed = put(info, param, values);
    assert(changed == info.push((param, values)));
    assert(changed[info.len() as int].0 == param);
    assert(lookup(changed, param) == Some(values)) by {
        let i = index_of(changed, param);
        if i < info.len() {
            assert(changed[i] == info[i]);
        }
    }
    lemma_put(jobs, at, changed);
}

/// A container is read once: listed again, with whatever labels, it
/// changes nothing and cannot fail.
pub proof fn lemma_container_is_read_once(
    scan: ScanModel,
    prefixes: Seq<Seq<char>>,
    allow_unsafe: bool,
    container: ContainerModel,
)
    ensures
        scan.seen.contains(container.id) ==> apply_container(
            scan,
            prefixes,
            allow_unsafe,
            container,
        ) == Ok::<ScanModel, ErrorModel>(scan),
        !scan.seen.contains(container.id) ==> (apply_container(
            scan,
            prefixes,
            allow_unsafe,
            container,
        ) matches Ok(next) ==> next.seen.contains(container.id)),
{
    if !scan.seen.contains(container.id) {
        let seen = scan.seen.push(container.id);
        assert(seen[scan.seen.len() as int] == container.id);
    }
}

/// A label that sets a parameter again is accepted where it repeats one of
/// the values that the parameter has, and leaves them as they are; with
/// any other value it is an error that holds the label key.
pub proof fn lemma_parameter_set_again(
    info: AttrModel,
    kind: Seq<char>,
    param: Seq<char>,
    key: Seq<char>,
    value: Seq<char>,
)
    requires
        lookup(info, "kind"@) matches Some(kinds) && kinds.contains(kind),
        lookup(info, param) is Some,
    ensures
        lookup(info, param)->0.contains(value) ==> with_parameter(info, kind, param, key, value)
            == Ok::<AttrModel, ErrorModel>(info),
        !lookup(info, param)->0.contains(value) ==> with_parameter(info, kind, param, key, value)
            == Err::<AttrModel, ErrorModel>((Fault::ConflictingValues, key)),
{
}

} // verus!
