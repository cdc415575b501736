//! The YAML reader.
//!
//! The payload is a mapping from job names to mappings from attribute
//! names to a value or to a sequence of values. The payload is turned into
//! events by the `saphyr-parser` crate; what the events mean is decided
//! here.
use crate::attrs::{has_key, put, Attributes, KeyedList, NormalizedMap};
use crate::error::{Error, Fault};
use crate::job::common::{AttrModel, ErrorModel};
use crate::loader::docker::JobsModel;
use crate::loader::ini::{add_value, info_of, with_section_value};
use crate::notice::{note, noted, Notice, Warning, WarningModel};
use saphyr_parser::{Event, Parser};
use vstd::prelude::*;

verus! {

/// One event of a YAML payload, as far as the reader tells events apart.
#[derive(Clone, Debug, PartialEq, Eq)]
pub enum YamlEvent {
    /// The payload is not well formed from here on. No event follows.
    Error(String),
    /// A scalar, with its text.
    Scalar(String),
    /// The start of a sequence.
    SequenceStart,
    /// The end of a sequence.
    SequenceEnd,
    /// The start of a mapping.
    MappingStart,
    /// The end of a mapping.
    MappingEnd,
    /// The end of the payload. No event follows.
    StreamEnd,
    /// A reference to an anchor.
    Alias,
    /// The start of the payload, or the start or the end of a document.
    Other,
}

/// The model of a [`YamlEvent`].
pub enum YamlEventModel {
    Error(Seq<char>),
    Scalar(Seq<char>),
    SequenceStart,
    SequenceEnd,
    MappingStart,
    MappingEnd,
    StreamEnd,
    Alias,
    Other,
}

impl DeepView for YamlEvent {
    type V = YamlEventModel;

    open spec fn deep_view(&self) -> YamlEventModel {
        match self {
            YamlEvent::Error(message) => YamlEventModel::Error(message@),
            YamlEvent::Scalar(text) => YamlEventModel::Scalar(text@),
            YamlEvent::SequenceStart => YamlEventModel::SequenceStart,
            YamlEvent::SequenceEnd => YamlEventModel::SequenceEnd,
            YamlEvent::MappingStart => YamlEventModel::MappingStart,
            YamlEvent::MappingEnd => YamlEventModel::MappingEnd,
            YamlEvent::StreamEnd => YamlEventModel::StreamEnd,
            YamlEvent::Alias => YamlEventModel::Alias,
            YamlEvent::Other => YamlEventModel::Other,
        }
    }
}

/// The events that `saphyr-parser` reads from `payload`, in order, up to
/// the end of the payload or to the first error, which is the last event
/// then.
pub uninterp spec fn yaml_parse(payload: Seq<char>) -> Seq<YamlEventModel>;

/// `saphyr_parser::Parser::new_from_str(payload)`, run until it yields
/// nothing more or an error: every event in order, the error last with the
/// parser's message.
#[verifier::external_body]
fn yaml_events(payload: &str) -> (r: Vec<YamlEvent>)
    ensures
        r.deep_view() == yaml_parse(payload@),
{
    let mut open = true;
    Parser::new_from_str(payload).take_while(|t| std::mem::replace(&mut open, t.is_ok())).map(
        |t| match t.map(|pair| pair.0) {
            Err(e) => YamlEvent::Error(e.to_string()),
            Ok(Event::Scalar(text, ..)) => YamlEvent::Scalar(text.into_owned()),
            Ok(Event::SequenceStart(..)) => YamlEvent::SequenceStart,
            Ok(Event::SequenceEnd) => YamlEvent::SequenceEnd,
            Ok(Event::MappingStart(..)) => YamlEvent::MappingStart,
            Ok(Event::MappingEnd) => YamlEvent::MappingEnd,
            Ok(Event::StreamEnd) => YamlEvent::StreamEnd,
            Ok(Event::Alias(_)) => YamlEvent::Alias,
            Ok(_) => YamlEvent::Other,
        },
    ).collect()
}

/// The state of the reader.
pub struct YamlState {
    /// The jobs so far.
    pub jobs: JobsModel,
    /// How many mappings are open: none, the mapping of the jobs, or the
    /// mapping of the attributes of a job as well.
    pub level: nat,
    /// Whether a sequence of values is open.
    pub in_list: bool,
    /// The job whose name was read last, until its mapping ends.
    pub job: Option<Seq<char>>,
    /// The attribute whose name was read last, until its value or its
    /// values are read.
    pub attr: Option<Seq<char>>,
}

/// The jobs after the name of a job: a new job has no attributes, a known
/// one keeps what it has.
pub open spec fn with_job(jobs: JobsModel, name: Seq<char>) -> JobsModel {
    if has_key(jobs, name) {
        jobs
    } else {
        put(jobs, name, Seq::empty())
    }
}

/// The attributes after the name of an attribute: a new attribute has no
/// values, a known one keeps what it has.
pub open spec fn with_attr(info: AttrModel, name: Seq<char>) -> AttrModel {
    if has_key(info, name) {
        info
    } else {
        put(info, name, Seq::empty())
    }
}

/// The reader after a scalar. Among the jobs it is the name of a job;
/// among the attributes of a job it is the name of an attribute or, after
/// such a name, a value of that attribute. Anywhere else it is an error.
pub open spec fn on_scalar(st: YamlState, text: Seq<char>) -> Result<YamlState, ErrorModel> {
    if st.level == 1 && st.job is None {
        Ok(YamlState { jobs: with_job(st.jobs, text), job: Some(text), ..st })
    } else if st.level == 2 && st.job is Some {
        let job = st.job->0;
        match st.attr {
            None => Ok(
                YamlState {
                    jobs: put(st.jobs, job, with_attr(info_of(st.jobs, job), text)),
                    attr: Some(text),
                    ..st
                },
            ),
            Some(attr) => Ok(
                YamlState {
                    jobs: with_section_value(st.jobs, job, attr, text),
                    attr: if st.in_list {
                        Some(attr)
                    } else {
                        None
                    },
                    ..st
                },
            ),
        }
    } else {
        Err((Fault::UnexpectedScalar, text))
    }
}

/// The reader after an alias. The node that an alias stands for is not
/// read: where it stands for the value of an attribute, the attribute keeps
/// what it has and the next scalar names an attribute again; where it
/// stands for the attributes of a job, the job keeps what it has and the
/// next scalar names a job again. Among the values of a sequence, and
/// anywhere else, it changes nothing.
pub open spec fn on_alias(st: YamlState) -> YamlState {
    if st.level == 2 && st.job is Some && st.attr is Some && !st.in_list {
        YamlState { attr: None, ..st }
    } else if st.level == 1 && st.job is Some {
        YamlState { job: None, ..st }
    } else {
        st
    }
}

/// The reader after one more event other than the end of the payload or an
/// error:
/// - a mapping may start at the top, and after the name of a job;
/// - a sequence may start after the name of an attribute, and not inside
///   another;
/// - an alias is passed over, with the node it stands for.
pub open spec fn yaml_step(st: YamlState, event: YamlEventModel) -> Result<YamlState, ErrorModel> {
    match event {
        YamlEventModel::Alias => Ok(on_alias(st)),
        YamlEventModel::Scalar(text) => on_scalar(st, text),
        YamlEventModel::SequenceStart => if st.level == 2 && !st.in_list && st.attr is Some {
            Ok(YamlState { in_list: true, ..st })
        } else {
            Err((Fault::MisplacedSequence, Seq::empty()))
        },
        YamlEventModel::SequenceEnd => Ok(YamlState { in_list: false, attr: None, ..st }),
        YamlEventModel::MappingStart => if st.level == 0 {
            Ok(YamlState { level: 1, ..st })
        } else if st.level == 1 {
            if st.job is Some {
                Ok(YamlState { level: 2, ..st })
            } else {
                Err((Fault::UnexpectedMapping, Seq::empty()))
            }
        } else {
            Err((Fault::TooDeep, Seq::empty()))
        },
        YamlEventModel::MappingEnd => if st.level >= 2 {
            Ok(YamlState { level: 1, in_list: false, job: None, attr: None, ..st })
        } else {
            Ok(YamlState { level: 0, in_list: false, job: None, attr: None, ..st })
        },
        _ => Ok(st),
    }
}

/// The jobs that the events give, read in order from the state `st`: the
/// jobs at the end of the payload, or the first error. Events that end
/// before the end of the payload are an error.
pub open spec fn read_events(st: YamlState, events: Seq<YamlEventModel>) -> Result<
    JobsModel,
    ErrorModel,
>
    decreases events.len(),
{
    if events.len() == 0 {
        Err((Fault::TruncatedStream, Seq::empty()))
    } else {
        match events[0] {
            YamlEventModel::StreamEnd => Ok(st.jobs),
            YamlEventModel::Error(message) => Err((Fault::YamlSyntax, message)),
            event => match yaml_step(st, event) {
                Ok(next) => read_events(next, events.drop_first()),
                Err(e) => Err(e),
            },
        }
    }
}

/// The jobs that the events of a YAML payload give.
pub open spec fn yaml_jobs(events: Seq<YamlEventModel>) -> Result<JobsModel, ErrorModel> {
    read_events(
        YamlState { jobs: Seq::empty(), level: 0, in_list: false, job: None, attr: None },
        events,
    )
}

/// Records the name of an attribute of a job, and says whether the job had
/// the attribute already.
fn declare_attr(jobs: &mut NormalizedMap, job: &str, name: &str) -> (known: bool)
    ensures
        final(jobs)@ == put(old(jobs)@, job@, with_attr(info_of(old(jobs)@, job@), name@)),
        known == has_key(info_of(old(jobs)@, job@), name@),
{
    let ghost before = jobs@;
    match jobs.position(job) {
        Some(at) => {
            let fresh: Attributes = KeyedList::new();
            let mut info = jobs.replace_at(at, fresh);
            let known = info.contains_key(name);
            if !known {
                let none: Vec<String> = Vec::new();
                assert(none.deep_view() =~= Seq::<Seq<char>>::empty());
                info.insert(String::from_str(name), none);
            }
            let ghost next = info@;
            jobs.replace_at(at, info);
            assert(jobs@ =~= put(before, job@, next));
            known
        },
        None => {
            let mut info: Attributes = KeyedList::new();
            let none: Vec<String> = Vec::new();
            assert(none.deep_view() =~= Seq::<Seq<char>>::empty());
            info.insert(String::from_str(name), none);
            jobs.insert(String::from_str(job), info);
            false
        },
    }
}

/// What there is to remark on an event, for a reader in the state `st`: an
/// alias, and the name of a job or of an attribute that stands a second
/// time.
pub open spec fn yaml_notice(st: YamlState, event: YamlEventModel) -> Option<WarningModel> {
    match event {
        YamlEventModel::Alias => Some((Notice::Alias, Seq::empty())),
        YamlEventModel::Scalar(text) => if st.level == 1 && st.job is None {
            if has_key(st.jobs, text) {
                Some((Notice::RepeatedKey, text))
            } else {
                None
            }
        } else if st.level == 2 && st.job is Some && st.attr is None {
            if has_key(info_of(st.jobs, st.job->0), text) {
                Some((Notice::RepeatedKey, text))
            } else {
                None
            }
        } else {
            None
        },
        _ => None,
    }
}

/// The remarks on the events, read in order from the state `st` up to the
/// end of the payload or to the first error.
pub open spec fn yaml_notices_from(st: YamlState, events: Seq<YamlEventModel>) -> Seq<
    WarningModel,
>
    decreases events.len(),
{
    if events.len() == 0 {
        Seq::empty()
    } else {
        match events[0] {
            YamlEventModel::StreamEnd => Seq::empty(),
            YamlEventModel::Error(_) => Seq::empty(),
            event => noted(yaml_notice(st, event)) + (match yaml_step(st, event) {
                Ok(next) => yaml_notices_from(next, events.drop_first()),
                Err(_) => Seq::empty(),
            }),
        }
    }
}

/// The remarks on the events of a YAML payload.
pub open spec fn yaml_notices(events: Seq<YamlEventModel>) -> Seq<WarningModel> {
    yaml_notices_from(
        YamlState { jobs: Seq::empty(), level: 0, in_list: false, job: None, attr: None },
        events,
    )
}

/// Builds the jobs of a YAML payload from its events, and adds to `log`
/// what there is to remark on them.
///
/// The result maps the name of each job to its attributes. It is an error
/// where the payload is not well formed, a scalar or a sequence stands
/// where none may, a mapping is nested too deeply, or the events end
/// before the end of the payload.
pub fn read_yaml_events(events: &Vec<YamlEvent>, log: &mut Vec<Warning>) -> (r: Result<
    NormalizedMap,
    Error,
>)
    ensures
        match r {
            Ok(map) => yaml_jobs(events.deep_view()) == Ok::<JobsModel, ErrorModel>(map@),
            Err(e) => yaml_jobs(events.deep_view()) == Err::<JobsModel, ErrorModel>(e@),
        },
        final(log).deep_view() == old(log).deep_view() + yaml_notices(events.deep_view()),
{
    let mut jobs: NormalizedMap = KeyedList::new();
    let mut level: u8 = 0;
    let mut in_list = false;
    let mut job: Option<String> = None;
    let mut attr: Option<String> = None;
    let ghost all = events.deep_view();
    let ghost start = log.deep_view();
    let mut i: usize = 0;
    assert(all.skip(0) =~= all);
    while i < events.len()
        invariant
            i <= events.len(),
            all == events.deep_view(),
            start == old(log).deep_view(),
            level <= 2,
            read_events(
                YamlState {
                    jobs: jobs@,
                    level: level as nat,
                    in_list,
                    job: job.deep_view(),
                    attr: attr.deep_view(),
                },
                all.skip(i as int),
            ) == yaml_jobs(all),
            log.deep_view() + yaml_notices_from(
                YamlState {
                    jobs: jobs@,
                    level: level as nat,
                    in_list,
                    job: job.deep_view(),
                    attr: attr.deep_view(),
                },
                all.skip(i as int),
            ) == start + yaml_notices(all),
        decreases events.len() - i,
    {
        let ghost st = YamlState {
            jobs: jobs@,
            level: level as nat,
            in_list,
            job: job.deep_view(),
            attr: attr.deep_view(),
        };
        let ghost logged = log.deep_view();
        proof {
            assert(all.skip(i as int)[0] == events@[i as int].deep_view());
            assert(all.skip(i as int).drop_first() =~= all.skip(i + 1));
            assert(logged + Seq::<WarningModel>::empty() =~= logged);
        }
        let mut remark: Option<Warning> = None;
        match &events[i] {
            YamlEvent::StreamEnd => {
                return Ok(jobs);
            },
            YamlEvent::Error(message) => {
                return Err(Error::new(Fault::YamlSyntax, message.as_str()));
            },
            YamlEvent::Scalar(text) => {
                if level == 1 && job.is_none() {
                    if jobs.contains_key(text.as_str()) {
                        remark = Some(Warning::new(Notice::RepeatedKey, text.as_str()));
                    } else {
                        let fresh: Attributes = KeyedList::new();
                        jobs.insert(text.clone(), fresh);
                    }
                    job = Some(text.clone());
                } else if level == 2 && job.is_some() {
                    let name = match &job {
                        Some(name) => name.as_str(),
                        None => "",
                    };
                    match &attr {
                        None => {
                            if declare_attr(&mut jobs, name, text.as_str()) {
                                remark = Some(Warning::new(Notice::RepeatedKey, text.as_str()));
                            }
                            attr = Some(text.clone());
                        },
                        Some(key) => {
                            add_value(&mut jobs, name, key.as_str(), text.clone());
                            if !in_list {
                                attr = None;
                            }
                        },
                    }
                } else {
                    return Err(Error::new(Fault::UnexpectedScalar, text.as_str()));
                }
            },
            YamlEvent::SequenceStart => {
                if level == 2 && !in_list && attr.is_some() {
                    in_list = true;
                } else {
                    return Err(Error::bare(Fault::MisplacedSequence));
                }
            },
            YamlEvent::SequenceEnd => {
                in_list = false;
                attr = None;
            },
            YamlEvent::MappingStart => {
                if level == 0 {
                    level = 1;
                } else if level == 1 {
                    if job.is_some() {
                        level = 2;
                    } else {
                        return Err(Error::bare(Fault::UnexpectedMapping));
                    }
                } else {
                    return Err(Error::bare(Fault::TooDeep));
                }
            },
            YamlEvent::MappingEnd => {
                level = if level >= 2 {
                    1
                } else {
                    0
                };
                in_list = false;
                job = None;
                attr = None;
            },
            YamlEvent::Alias => {
                remark = Some(Warning::new(Notice::Alias, ""));
                proof {
                    reveal_strlit("");
                    assert(""@ =~= Seq::<char>::empty());
                }
                if level == 2 && job.is_some() && attr.is_some() && !in_list {
                    attr = None;
                } else if level == 1 && job.is_some() {
                    job = None;
                }
            },
            YamlEvent::Other => {},
        }
        proof {
            let head = noted(remark.deep_view());
            let rest = yaml_notices_from(
                YamlState {
                    jobs: jobs@,
                    level: level as nat,
                    in_list,
                    job: job.deep_view(),
                    attr: attr.deep_view(),
                },
                all.skip(i + 1),
            );
            assert(head == noted(yaml_notice(st, all[i as int])));
            assert((logged + head) + rest =~= logged + (head + rest));
        }
        note(log, remark);
        i += 1;
    }
    assert(log.deep_view() + Seq::<WarningModel>::empty() =~= log.deep_view());
    Err(Error::bare(Fault::TruncatedStream))
}

/// Builds the jobs of a YAML payload from its events.
pub fn parse_yaml_events(events: &Vec<YamlEvent>) -> (r: Result<NormalizedMap, Error>)
    ensures
        match r {
            Ok(map) => yaml_jobs(events.deep_view()) == Ok::<JobsModel, ErrorModel>(map@),
            Err(e) => yaml_jobs(events.deep_view()) == Err::<JobsModel, ErrorModel>(e@),
        },
{
    let mut log: Vec<Warning> = Vec::new();
    read_yaml_events(events, &mut log)
}

/// What there is to remark on the events of a YAML payload, up to its end
/// or to the first error.
pub fn yaml_warnings(events: &Vec<YamlEvent>) -> (r: Vec<Warning>)
    ensures
        r.deep_view() == yaml_notices(events.deep_view()),
{
    let mut log: Vec<Warning> = Vec::new();
    assert(log.deep_view() =~= Seq::<WarningModel>::empty());
    let _read = read_yaml_events(events, &mut log);
    assert(Seq::<WarningModel>::empty() + yaml_notices(events.deep_view()) =~= yaml_notices(
        events.deep_view(),
    ));
    log
}

/// Reads a YAML payload into the normalized map, and adds to `log` what
/// there is to remark on it.
pub fn read_yaml(payload: &String, log: &mut Vec<Warning>) -> (r: Result<NormalizedMap, Error>)
    ensures
        match r {
            Ok(map) => yaml_jobs(yaml_parse(payload@)) == Ok::<JobsModel, ErrorModel>(map@),
            Err(e) => yaml_jobs(yaml_parse(payload@)) == Err::<JobsModel, ErrorModel>(e@),
        },
        final(log).deep_view() == old(log).deep_view() + yaml_notices(yaml_parse(payload@)),
{
    let events = yaml_events(payload.as_str());
    read_yaml_events(&events, log)
}

/// Reads a YAML payload into the normalized map.
pub fn parse_yaml(payload: &String) -> (r: Result<NormalizedMap, Error>)
    ensures
        match r {
            Ok(map) => yaml_jobs(yaml_parse(payload@)) == Ok::<JobsModel, ErrorModel>(map@),
            Err(e) => yaml_jobs(yaml_parse(payload@)) == Err::<JobsModel, ErrorModel>(e@),
        },
{
    let mut log: Vec<Warning> = Vec::new();
    read_yaml(payload, &mut log)
}

} // verus!
