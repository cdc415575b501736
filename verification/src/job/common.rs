//! What the job kinds share: reading attributes, and the report of an
//! execution.
use crate::attrs::{lookup, Attributes};
use crate::error::{Error, ErrorKind, Fault};
use crate::schedule::{parsed_schedule, schedule_to_cron, Schedule};
use crate::text::{clone_strings, str_eq};
use vstd::prelude::*;
use vstd::utf8::{decode_utf8, valid_utf8};

verus! {

/// What stands for the target of a job that names neither a container nor
/// an image.
pub const UNKNOWN_CONTAINER_LABEL: &'static str = "UNKNOWN";

/// The model of a job's attributes.
pub type AttrModel = Seq<(Seq<char>, Seq<Seq<char>>)>;

/// The model of an error.
pub type ErrorModel = (Fault, Seq<char>);

/// The value of the single-valued attribute `key`, where it is present: an
/// error unless it has exactly one value.
pub open spec fn one_of(m: AttrModel, key: Seq<char>) -> Result<Option<Seq<char>>, ErrorModel> {
    match lookup(m, key) {
        None => Ok(None),
        Some(values) => if values.len() == 1 {
            Ok(Some(values[0]))
        } else {
            Err((Fault::TooManyValues, key))
        },
    }
}

/// The value of the required single-valued attribute `key`.
pub open spec fn required(m: AttrModel, key: Seq<char>) -> Result<Seq<char>, ErrorModel> {
    match lookup(m, key) {
        None => Err((Fault::MissingAttribute, key)),
        Some(values) => if values.len() == 1 {
            Ok(values[0])
        } else {
            Err((Fault::TooManyValues, key))
        },
    }
}

/// The values of the multi-valued attribute `key`: none where it is absent.
pub open spec fn many_of(m: AttrModel, key: Seq<char>) -> Seq<Seq<char>> {
    match lookup(m, key) {
        None => Seq::empty(),
        Some(values) => values,
    }
}

/// The boolean that the optional attribute `key` holds: `default` where it
/// is absent, an error where it is neither `true` nor `false`.
pub open spec fn flag_of(m: AttrModel, key: Seq<char>, default: bool) -> Result<bool, ErrorModel> {
    match one_of(m, key) {
        Err(e) => Err(e),
        Ok(None) => Ok(default),
        Ok(Some(text)) => if text == "true"@ {
            Ok(true)
        } else if text == "false"@ {
            Ok(false)
        } else {
            Err((Fault::InvalidBoolean, text))
        },
    }
}

/// The name of a job: the attribute `name` or, where it is absent, the key
/// under which the job stands in the normalized map. It is an error where
/// there is neither, or where the attribute has no value or several.
pub open spec fn name_of(m: AttrModel, key: Option<Seq<char>>) -> Result<Seq<char>, ErrorModel> {
    match lookup(m, "name"@) {
        None => match key {
            Some(k) => Ok(k),
            None => Err((Fault::MissingAttribute, "name"@)),
        },
        Some(values) => if values.len() == 1 {
            Ok(values[0])
        } else {
            Err((Fault::TooManyValues, "name"@))
        },
    }
}

/// The schedule of a job: the cron expression of the required attribute
/// `schedule`.
pub open spec fn schedule_of(m: AttrModel) -> Result<Seq<char>, ErrorModel> {
    match required(m, "schedule"@) {
        Ok(text) => parsed_schedule(text),
        Err(e) => Err(e),
    }
}

/// The command of a job: the required attribute `command`, which may not
/// be empty.
pub open spec fn command_of(m: AttrModel) -> Result<Seq<char>, ErrorModel> {
    match required(m, "command"@) {
        Ok(text) => if text.len() == 0 {
            Err((Fault::EmptyCommand, Seq::empty()))
        } else {
            Ok(text)
        },
        Err(e) => Err(e),
    }
}

/// The error of a result, where it is one.
pub open spec fn err_of<T>(r: Result<T, ErrorModel>) -> Option<ErrorModel> {
    match r {
        Ok(_) => None,
        Err(e) => Some(e),
    }
}

/// The first of two errors.
pub open spec fn first_of(a: Option<ErrorModel>, b: Option<ErrorModel>) -> Option<ErrorModel> {
    if a is Some {
        a
    } else {
        b
    }
}

/// The target of a job as its display string shows it: the container, or
/// else the image, or else [`UNKNOWN_CONTAINER_LABEL`].
pub open spec fn target_of(container: Option<Seq<char>>, image: Option<Seq<char>>) -> Seq<char> {
    match container {
        Some(c) => c,
        None => match image {
            Some(i) => i,
            None => UNKNOWN_CONTAINER_LABEL@,
        },
    }
}

/// The display string of a job: its kind, its name and its target, joined
/// by dots.
pub open spec fn display_text(label: Seq<char>, name: Seq<char>, target: Seq<char>) -> Seq<char> {
    label + "."@ + name + "."@ + target
}

/// Reads the single-valued attribute `key`.
pub fn read_one(map: &Attributes, key: &str) -> (r: Result<Option<String>, Error>)
    ensures
        match r {
            Ok(v) => one_of(map@, key@) == Ok::<Option<Seq<char>>, ErrorModel>(v.deep_view()),
            Err(e) => one_of(map@, key@) == Err::<Option<Seq<char>>, ErrorModel>(e@),
        },
{
    match map.get(key) {
        None => Ok(None),
        Some(values) => {
            if values.len() != 1 {
                Err(Error::new(Fault::TooManyValues, key))
            } else {
                assert(values.deep_view()[0] == values@[0]@);
                Ok(Some(values[0].clone()))
            }
        },
    }
}

/// Reads the required single-valued attribute `key`.
pub fn read_required(map: &Attributes, key: &str) -> (r: Result<String, Error>)
    ensures
        match r {
            Ok(v) => required(map@, key@) == Ok::<Seq<char>, ErrorModel>(v@),
            Err(e) => required(map@, key@) == Err::<Seq<char>, ErrorModel>(e@),
        },
{
    match map.get(key) {
        None => Err(Error::new(Fault::MissingAttribute, key)),
        Some(values) => {
            if values.len() != 1 {
                Err(Error::new(Fault::TooManyValues, key))
            } else {
                assert(values.deep_view()[0] == values@[0]@);
                Ok(values[0].clone())
            }
        },
    }
}

/// Reads the multi-valued attribute `key`.
pub fn read_many(map: &Attributes, key: &str) -> (r: Vec<String>)
    ensures
        r.deep_view() == many_of(map@, key@),
{
    match map.get(key) {
        None => {
            let r: Vec<String> = Vec::new();
            assert(r.deep_view() =~= Seq::<Seq<char>>::empty());
            r
        },
        Some(values) => clone_strings(values),
    }
}

/// Reads the multi-valued attribute `key`, where it is present.
pub fn read_list(map: &Attributes, key: &str) -> (r: Option<Vec<String>>)
    ensures
        r.deep_view() == lookup(map@, key@),
{
    match map.get(key) {
        None => None,
        Some(values) => Some(clone_strings(values)),
    }
}

/// Reads the boolean attribute `key`.
pub fn read_flag(map: &Attributes, key: &str, default: bool) -> (r: Result<bool, Error>)
    ensures
        match r {
            Ok(v) => flag_of(map@, key@, default) == Ok::<bool, ErrorModel>(v),
            Err(e) => flag_of(map@, key@, default) == Err::<bool, ErrorModel>(e@),
        },
{
    match read_one(map, key) {
        Err(e) => Err(e),
        Ok(None) => Ok(default),
        Ok(Some(text)) => {
            if str_eq(text.as_str(), "true") {
                Ok(true)
            } else if str_eq(text.as_str(), "false") {
                Ok(false)
            } else {
                Err(Error { fault: Fault::InvalidBoolean, detail: text })
            }
        },
    }
}

/// Reads the name of a job.
pub fn read_name(map: &Attributes, key: Option<&str>) -> (r: Result<String, Error>)
    ensures
        match r {
            Ok(v) => name_of(map@, key.deep_view()) == Ok::<Seq<char>, ErrorModel>(v@),
            Err(e) => name_of(map@, key.deep_view()) == Err::<Seq<char>, ErrorModel>(e@),
        },
{
    match map.get("name") {
        None => match key {
            Some(k) => Ok(String::from_str(k)),
            None => Err(Error::new(Fault::MissingAttribute, "name")),
        },
        Some(values) => {
            if values.len() != 1 {
                Err(Error::new(Fault::TooManyValues, "name"))
            } else {
                assert(values.deep_view()[0] == values@[0]@);
                Ok(values[0].clone())
            }
        },
    }
}

/// Reads the schedule of a job.
pub fn read_schedule(map: &Attributes) -> (r: Result<Schedule, Error>)
    ensures
        match r {
            Ok(v) => schedule_of(map@) == Ok::<Seq<char>, ErrorModel>(v@),
            Err(e) => schedule_of(map@) == Err::<Seq<char>, ErrorModel>(e@),
        },
{
    match read_required(map, "schedule") {
        Ok(text) => schedule_to_cron(text.as_str()),
        Err(e) => Err(e),
    }
}

/// Reads the command of a job.
pub fn read_command(map: &Attributes) -> (r: Result<String, Error>)
    ensures
        match r {
            Ok(v) => command_of(map@) == Ok::<Seq<char>, ErrorModel>(v@),
            Err(e) => command_of(map@) == Err::<Seq<char>, ErrorModel>(e@),
        },
{
    match read_required(map, "command") {
        Ok(text) => {
            if text.as_str().is_empty() {
                Err(Error::bare(Fault::EmptyCommand))
            } else {
                Ok(text)
            }
        },
        Err(e) => Err(e),
    }
}

/// The display string of a job.
pub fn display_string(label: &str, name: &str, target: &str) -> (r: String)
    ensures
        r@ == display_text(label@, name@, target@),
{
    let mut out = String::from_str(label);
    out.append(".");
    out.append(name);
    out.append(".");
    out.append(target);
    out
}

/// The target of a job as its display string shows it.
pub fn display_target<'a>(container: &'a Option<String>, image: &'a Option<String>) -> (r: &'a str)
    ensures
        r@ == target_of(container.deep_view(), image.deep_view()),
{
    match container {
        Some(c) => c.as_str(),
        None => match image {
            Some(i) => i.as_str(),
            None => UNKNOWN_CONTAINER_LABEL,
        },
    }
}

/// Returned by the schedule watch when a job's execution should occur.
#[derive(Clone, Copy, Debug, PartialEq, Eq, Structural)]
pub struct ExecutionSchedule {}

impl Default for ExecutionSchedule {
    fn default() -> (r: Self)
        ensures
            r == (ExecutionSchedule {  }),
    {
        ExecutionSchedule {  }
    }
}

/// Returned by a job to report on its execution if no error occurred.
#[derive(Clone, Debug, PartialEq, Eq)]
pub struct ExecutionReport {
    /// The exit code of the command.
    pub retval: i64,
    /// What the command wrote to its standard output, where it wrote
    /// anything.
    pub stdout: Option<String>,
    /// What the command wrote to its standard error, where it wrote
    /// anything.
    pub stderr: Option<String>,
}

/// The model of a report.
pub struct ReportModel {
    pub retval: i64,
    pub stdout: Option<Seq<char>>,
    pub stderr: Option<Seq<char>>,
}

impl View for ExecutionReport {
    type V = ReportModel;

    open spec fn view(&self) -> ReportModel {
        ReportModel {
            retval: self.retval,
            stdout: self.stdout.deep_view(),
            stderr: self.stderr.deep_view(),
        }
    }
}

impl Default for ExecutionReport {
    fn default() -> (r: Self)
        ensures
            r@ == (ReportModel { retval: 0, stdout: None, stderr: None }),
    {
        ExecutionReport { retval: 0, stdout: None, stderr: None }
    }
}

/// What a pending outcome of a job's loop resolves to.
#[derive(Debug)]
pub enum ExecInfo {
    /// An execution ended.
    Report(ExecutionReport),
    /// The schedule fired.
    Schedule(ExecutionSchedule),
}

/// One frame of the output stream of a command.
#[derive(Clone, Debug, PartialEq, Eq)]
pub enum LogFrame {
    /// Bytes written to the standard error.
    StdErr(Vec<u8>),
    /// Bytes written to the standard output.
    StdOut(Vec<u8>),
    /// Bytes read from the standard input.
    StdIn(Vec<u8>),
    /// Bytes written to the console of a command that has a terminal.
    Console(Vec<u8>),
}

/// Which of the two texts of a report a frame adds to.
pub open spec fn frame_part(frame: LogFrame, to_stderr: bool) -> Option<Seq<u8>> {
    match frame {
        LogFrame::StdErr(bytes) => if to_stderr {
            Some(bytes@)
        } else {
            None
        },
        LogFrame::StdOut(bytes) => if to_stderr {
            None
        } else {
            Some(bytes@)
        },
        LogFrame::Console(bytes) => if to_stderr {
            None
        } else {
            Some(bytes@)
        },
        LogFrame::StdIn(_) => None,
    }
}

/// Whether a frame can be read: frames of the standard input are not read
/// at all, the others have to be UTF-8.
pub open spec fn frame_readable(frame: LogFrame) -> bool {
    match frame {
        LogFrame::StdErr(bytes) => valid_utf8(bytes@),
        LogFrame::StdOut(bytes) => valid_utf8(bytes@),
        LogFrame::Console(bytes) => valid_utf8(bytes@),
        LogFrame::StdIn(_) => true,
    }
}

/// Whether every frame can be read.
pub open spec fn frames_readable(frames: Seq<LogFrame>) -> bool {
    forall|i: int| 0 <= i < frames.len() ==> frame_readable(#[trigger] frames[i])
}

/// The text that the frames add to the standard output of a report, or to
/// its standard error, in the order of their arrival.
pub open spec fn collected(frames: Seq<LogFrame>, to_stderr: bool) -> Seq<char>
    decreases frames.len(),
{
    if frames.len() == 0 {
        Seq::empty()
    } else {
        let before = collected(frames.drop_last(), to_stderr);
        match frame_part(frames.last(), to_stderr) {
            Some(bytes) => before + decode_utf8(bytes),
            None => before,
        }
    }
}

/// A text as a report holds it: absent where it is empty.
pub open spec fn present(text: Seq<char>) -> Option<Seq<char>> {
    if text.len() == 0 {
        None
    } else {
        Some(text)
    }
}

/// A report after the output of a command: an error where the report holds
/// output already or a frame that is read is not UTF-8.
pub open spec fn with_output(report: ReportModel, frames: Seq<LogFrame>) -> Result<
    ReportModel,
    ErrorModel,
> {
    if report.stdout is Some || report.stderr is Some {
        Err((Fault::ReportNotEmpty, Seq::empty()))
    } else if !frames_readable(frames) {
        Err((Fault::InvalidOutput, Seq::empty()))
    } else {
        Ok(
            ReportModel {
                retval: report.retval,
                stdout: present(collected(frames, false)),
                stderr: present(collected(frames, true)),
            },
        )
    }
}

/// `String::from_utf8`: the text that the bytes encode, where they are
/// UTF-8.
#[verifier::external_body]
pub(crate) fn utf8_string(bytes: Vec<u8>) -> (r: Option<String>)
    ensures
        match r {
            Some(text) => valid_utf8(bytes@) && text@ == decode_utf8(bytes@),
            None => !valid_utf8(bytes@),
        },
{
    String::from_utf8(bytes).ok()
}

/// The class of a report: a command that ended with a code other than zero
/// counts as an execution error, though its run is complete.
pub open spec fn report_kind(report: ReportModel) -> Option<ErrorKind> {
    if report.retval != 0 {
        Some(ErrorKind::Exec)
    } else {
        None
    }
}

impl ExecutionReport {
    /// The class of the report, where the command did not end with zero.
    pub fn kind(&self) -> (r: Option<ErrorKind>)
        ensures
            r == report_kind(self@),
    {
        if self.retval != 0 {
            Some(ErrorKind::Exec)
        } else {
            None
        }
    }

    /// Records the output of a command from the frames of its stream, taken
    /// in the order of their arrival. Frames of the standard output and of
    /// the console add to `stdout`, frames of the standard error to
    /// `stderr`, and frames of the standard input are passed over. A text
    /// that stays empty stays absent.
    ///
    /// It fails, and leaves the report as it was, where the report already
    /// holds output or a frame that is read is not UTF-8.
    pub fn exhaust_stream(&mut self, frames: Vec<LogFrame>) -> (r: Result<(), Error>)
        ensures
            match r {
                Ok(()) => with_output(old(self)@, frames@) == Ok::<ReportModel, ErrorModel>(
                    final(self)@,
                ),
                Err(e) => *final(self) == *old(self) && with_output(old(self)@, frames@) == Err::<
                    ReportModel,
                    ErrorModel,
                >(e@),
            },
    {
        if self.stdout.is_some() || self.stderr.is_some() {
            return Err(Error::bare(Fault::ReportNotEmpty));
        }
        let mut stdout = String::new();
        let mut stderr = String::new();
        let ghost all = frames@;
        let mut rest = frames;
        let mut i: usize = 0;
        let n = rest.len();
        assert(all.take(0) =~= Seq::<LogFrame>::empty());
        while i < n
            invariant
                i <= n,
                n == all.len(),
                all == frames@,
                *self == *old(self),
                self.stdout is None && self.stderr is None,
                rest@.len() == n,
                forall|j: int| i <= j < n ==> rest@[j] == all[j],
                frames_readable(all.take(i as int)),
                stdout@ == collected(all.take(i as int), false),
                stderr@ == collected(all.take(i as int), true),
            decreases n - i,
        {
            let mut frame = LogFrame::StdIn(Vec::new());
            rest.set_and_swap(i, &mut frame);
            proof {
                assert(frame == all[i as int]);
                assert(all.take(i + 1).drop_last() =~= all.take(i as int));
                assert(all.take(i + 1).last() == all[i as int]);
            }
            let ghost before = all.take(i as int);
            let ghost now = all.take(i + 1);
            match frame {
                LogFrame::StdErr(bytes) => match utf8_string(bytes) {
                    Some(text) => stderr.append(text.as_str()),
                    None => {
                        assert(!frame_readable(all[i as int]));
                        return Err(Error::bare(Fault::InvalidOutput));
                    },
                },
                LogFrame::StdOut(bytes) => match utf8_string(bytes) {
                    Some(text) => stdout.append(text.as_str()),
                    None => {
                        assert(!frame_readable(all[i as int]));
                        return Err(Error::bare(Fault::InvalidOutput));
                    },
                },
                LogFrame::StdIn(_) => {},
                LogFrame::Console(bytes) => match utf8_string(bytes) {
                    Some(text) => stdout.append(text.as_str()),
                    None => {
                        assert(!frame_readable(all[i as int]));
                        return Err(Error::bare(Fault::InvalidOutput));
                    },
                },
            }
            proof {
                assert forall|j: int| 0 <= j < now.len() implies frame_readable(
                    #[trigger] now[j],
                ) by {
                    if j < i {
                        assert(before[j] == now[j]);
                    }
                }
            }
            i += 1;
        }
        assert(all.take(n as int) =~= all);
        if !stdout.as_str().is_empty() {
            self.stdout = Some(stdout);
        }
        if !stderr.as_str().is_empty() {
            self.stderr = Some(stderr);
        }
        Ok(())
    }
}

} // verus!
