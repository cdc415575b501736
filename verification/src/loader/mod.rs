//! Loading jobs: from a configuration file or from the labels of
//! containers.
pub mod docker;
pub mod ini;
pub mod yaml;

use crate::attrs::{delete, KeyedList, NormalizedMap};
use crate::context::ApplicationContext;
use crate::error::{Error, Fault};
use crate::job::common::{utf8_string, ErrorModel};
use crate::job::{decoded_job, job_notices, JobInfo, JobModel};
use crate::loader::docker::{label_notices, scan_labels, tagged_targets, Container, JobsModel};
use crate::loader::ini::{ini_notices, ini_parse, ini_sections, read_ini, GLOBAL_SECTION};
use crate::loader::yaml::{read_yaml, yaml_jobs, yaml_notices, yaml_parse};
use crate::notice::{note_all, Warning, WarningModel};
use crate::text::{split, split_on, str_eq};
use vstd::prelude::*;
use vstd::utf8::{decode_utf8, valid_utf8};

verus! {

/// `s` in lower case, as `str::to_lowercase` gives it.
pub uninterp spec fn lowercase(s: Seq<char>) -> Seq<char>;

/// `str::to_lowercase`.
#[verifier::external_body]
fn to_lowercase(s: &str) -> (r: String)
    ensures
        r@ == lowercase(s@),
{
    s.to_lowercase()
}

/// The jobs of a normalized map, decoded in the order of its entries up to
/// the first error. A job without a name takes its key as its name.
pub open spec fn decoded_jobs(m: JobsModel) -> Result<Seq<JobModel>, ErrorModel>
    decreases m.len(),
{
    if m.len() == 0 {
        Ok(Seq::empty())
    } else {
        match decoded_jobs(m.drop_last()) {
            Ok(before) => match decoded_job(m.last().1, Some(m.last().0)) {
                Ok(job) => Ok(before.push(job)),
                Err(e) => Err(e),
            },
            Err(e) => Err(e),
        }
    }
}

/// Whether a file extension, in lower case, is that of an INI file.
pub open spec fn is_ini(ext: Seq<char>) -> bool {
    ext == "ini"@
}

/// Whether a file extension, in lower case, is that of a YAML file.
pub open spec fn is_yaml(ext: Seq<char>) -> bool {
    ext == "yaml"@ || ext == "yml"@
}

/// What a file gives, from what each of the two readers makes of it: the
/// reader that the extension names decides alone; with any other extension
/// the INI reader goes first and the YAML reader decides where it fails.
pub open spec fn chosen(
    ext: Seq<char>,
    ini: Result<JobsModel, ErrorModel>,
    yaml: Result<JobsModel, ErrorModel>,
) -> Result<JobsModel, ErrorModel> {
    if is_ini(ext) {
        ini
    } else if is_yaml(ext) {
        yaml
    } else if ini is Ok {
        ini
    } else {
        yaml
    }
}

/// What the content of a file with the extension `ext` gives.
pub open spec fn file_content(content: Seq<char>, ext: Seq<char>) -> Result<
    JobsModel,
    ErrorModel,
> {
    chosen(ext, ini_sections(ini_parse(content)), yaml_jobs(yaml_parse(content)))
}

/// The extension of a path: what follows its last dot, or all of it where
/// it has none.
pub open spec fn extension(path: Seq<char>) -> Seq<char> {
    split_on(path, '.').last()
}

/// The jobs that the file at `path` gives, from its bytes: the bytes have
/// to be UTF-8, the reader goes by the extension in lower case, and the
/// section `global` is no job.
pub open spec fn file_jobs(path: Seq<char>, bytes: Seq<u8>) -> Result<Seq<JobModel>, ErrorModel> {
    if !valid_utf8(bytes) {
        Err((Fault::InvalidEncoding, path))
    } else {
        match file_content(decode_utf8(bytes), lowercase(extension(path))) {
            Ok(map) => decoded_jobs(delete(map, GLOBAL_SECTION@)),
            Err(e) => Err(e),
        }
    }
}

/// The jobs that the labels of the listed containers give.
pub open spec fn label_jobs(
    listings: Seq<Option<Seq<crate::loader::docker::ContainerModel>>>,
    prefixes: Seq<Seq<char>>,
    allow_unsafe: bool,
) -> Result<Seq<JobModel>, ErrorModel> {
    match tagged_targets(listings, prefixes, allow_unsafe) {
        Ok(map) => decoded_jobs(map),
        Err(e) => Err(e),
    }
}

/// An error among the first jobs is the error of all of them.
proof fn lemma_jobs_fail(m: JobsModel, n: int)
    requires
        0 <= n <= m.len(),
        decoded_jobs(m.take(n)) is Err,
    ensures
        decoded_jobs(m) == decoded_jobs(m.take(n)),
    decreases m.len() - n,
{
    if n < m.len() {
        assert(m.take(n + 1).drop_last() =~= m.take(n));
        lemma_jobs_fail(m, n + 1);
    } else {
        assert(m.take(n) =~= m);
    }
}

/// Decodes the jobs of a normalized map, in the order of its entries. A
/// job without a name takes its key as its name. The first job in error is
/// the error of the whole.
pub fn map_to_job(map: NormalizedMap) -> (r: Result<Vec<JobInfo>, Error>)
    ensures
        match r {
            Ok(jobs) => decoded_jobs(map@) == Ok::<Seq<JobModel>, ErrorModel>(jobs.deep_view()),
            Err(e) => decoded_jobs(map@) == Err::<Seq<JobModel>, ErrorModel>(e@),
        },
{
    let mut out: Vec<JobInfo> = Vec::new();
    let mut i: usize = 0;
    assert(map@.take(0) =~= Seq::<(Seq<char>, crate::job::common::AttrModel)>::empty());
    assert(out.deep_view() =~= Seq::<JobModel>::empty());
    while i < map.len()
        invariant
            i <= map@.len(),
            decoded_jobs(map@.take(i as int)) == Ok::<Seq<JobModel>, ErrorModel>(out.deep_view()),
        decreases map@.len() - i,
    {
        proof {
            assert(map@.take(i + 1).drop_last() =~= map@.take(i as int));
            assert(map@.take(i + 1).last() == map@[i as int]);
        }
        let ghost before = out.deep_view();
        match JobInfo::decode(map.value_at(i), Some(map.key_at(i).as_str())) {
            Ok(job) => {
                out.push(job);
                assert(out.deep_view() =~= before.push(job@));
            },
            Err(e) => {
                proof {
                    lemma_jobs_fail(map@, i + 1);
                }
                return Err(e);
            },
        }
        i += 1;
    }
    assert(map@.take(map@.len() as int) =~= map@);
    Ok(out)
}

/// The remarks on the jobs of a normalized map, in the order of its
/// entries: for each job, what there is to remark on its attributes.
pub open spec fn map_notices(m: JobsModel) -> Seq<WarningModel>
    decreases m.len(),
{
    if m.len() == 0 {
        Seq::empty()
    } else {
        map_notices(m.drop_last()) + job_notices(m.last().1)
    }
}

/// The remarks on the content of a file with the extension `ext`: those of
/// the reader that decides what the file gives.
pub open spec fn content_notices(content: Seq<char>, ext: Seq<char>) -> Seq<WarningModel> {
    if is_ini(ext) {
        ini_notices(ini_parse(content))
    } else if is_yaml(ext) {
        yaml_notices(yaml_parse(content))
    } else if ini_sections(ini_parse(content)) is Ok {
        ini_notices(ini_parse(content))
    } else {
        yaml_notices(yaml_parse(content))
    }
}

/// The remarks on the file at `path`, from its bytes: those of the reader
/// and, where the file could be read, those on its jobs.
pub open spec fn file_notices(path: Seq<char>, bytes: Seq<u8>) -> Seq<WarningModel> {
    if !valid_utf8(bytes) {
        Seq::empty()
    } else {
        let content = decode_utf8(bytes);
        let ext = lowercase(extension(path));
        content_notices(content, ext) + (match file_content(content, ext) {
            Ok(map) => map_notices(delete(map, GLOBAL_SECTION@)),
            Err(_) => Seq::empty(),
        })
    }
}

/// The remarks on the labels of the listed containers and, where they
/// could be read, on the jobs that they declare.
pub open spec fn labels_notices_of(
    listings: Seq<Option<Seq<crate::loader::docker::ContainerModel>>>,
    prefixes: Seq<Seq<char>>,
    allow_unsafe: bool,
) -> Seq<WarningModel> {
    label_notices(listings, prefixes, allow_unsafe) + (match tagged_targets(
        listings,
        prefixes,
        allow_unsafe,
    ) {
        Ok(map) => map_notices(map),
        Err(_) => Seq::empty(),
    })
}

/// What there is to remark on the jobs of a normalized map.
pub fn map_warnings(map: &NormalizedMap) -> (r: Vec<Warning>)
    ensures
        r.deep_view() == map_notices(map@),
{
    let mut out: Vec<Warning> = Vec::new();
    let n = map.len();
    let mut i: usize = 0;
    assert(map@.take(0) =~= Seq::<(Seq<char>, crate::job::common::AttrModel)>::empty());
    assert(out.deep_view() =~= Seq::<WarningModel>::empty());
    while i < n
        invariant
            i <= n,
            n == map@.len(),
            out.deep_view() == map_notices(map@.take(i as int)),
        decreases n - i,
    {
        proof {
            assert(map@.take(i + 1).drop_last() =~= map@.take(i as int));
            assert(map@.take(i + 1).last() == map@[i as int]);
        }
        note_all(&mut out, JobInfo::warnings(map.value_at(i)));
        i += 1;
    }
    assert(map@.take(n as int) =~= map@);
    out
}

/// Reads the content of a configuration file, and adds to `log` what there
/// is to remark on it. `ext` is the extension of the file in lower case:
/// `ini` asks for the INI reader, `yaml` and `yml` for the YAML reader;
/// with any other extension the INI reader is tried first and the YAML
/// reader where it fails.
pub fn read_file_content(content: &String, ext: &String, log: &mut Vec<Warning>) -> (r: Result<
    NormalizedMap,
    Error,
>)
    ensures
        match r {
            Ok(map) => file_content(content@, ext@) == Ok::<JobsModel, ErrorModel>(map@),
            Err(e) => file_content(content@, ext@) == Err::<JobsModel, ErrorModel>(e@),
        },
        final(log).deep_view() == old(log).deep_view() + content_notices(content@, ext@),
{
    let ini = str_eq(ext.as_str(), "ini");
    let yaml = str_eq(ext.as_str(), "yaml") || str_eq(ext.as_str(), "yml");
    if ini {
        read_ini(content, log)
    } else if yaml {
        read_yaml(content, log)
    } else {
        let mut first: Vec<Warning> = Vec::new();
        assert(first.deep_view() =~= Seq::<WarningModel>::empty());
        match read_ini(content, &mut first) {
            Ok(map) => {
                assert(first.deep_view() =~= ini_notices(ini_parse(content@)));
                note_all(log, first);
                Ok(map)
            },
            Err(_) => read_yaml(content, log),
        }
    }
}

/// Reads the content of a configuration file. `ext` is the extension of
/// the file in lower case: `ini` asks for the INI reader, `yaml` and `yml`
/// for the YAML reader; with any other extension the INI reader is tried
/// first and the YAML reader where it fails.
pub fn load_file_content(content: &String, ext: &String) -> (r: Result<NormalizedMap, Error>)
    ensures
        match r {
            Ok(map) => file_content(content@, ext@) == Ok::<JobsModel, ErrorModel>(map@),
            Err(e) => file_content(content@, ext@) == Err::<JobsModel, ErrorModel>(e@),
        },
{
    let mut log: Vec<Warning> = Vec::new();
    read_file_content(content, ext, &mut log)
}

/// Loads the jobs of the configuration file at `path` from the bytes of
/// the file, and adds to `log` what there is to remark on the file and on
/// its jobs.
pub fn read_file(
    path: &String,
    bytes: Vec<u8>,
    _ctx: &ApplicationContext,
    log: &mut Vec<Warning>,
) -> (r: Result<Vec<JobInfo>, Error>)
    ensures
        match r {
            Ok(jobs) => file_jobs(path@, bytes@) == Ok::<Seq<JobModel>, ErrorModel>(
                jobs.deep_view(),
            ),
            Err(e) => file_jobs(path@, bytes@) == Err::<Seq<JobModel>, ErrorModel>(e@),
        },
        final(log).deep_view() == old(log).deep_view() + file_notices(path@, bytes@),
{
    let ghost logged = log.deep_view();
    let content = match utf8_string(bytes) {
        Some(text) => text,
        None => {
            assert(logged + Seq::<WarningModel>::empty() =~= logged);
            return Err(Error::new(Fault::InvalidEncoding, path.as_str()));
        },
    };
    let parts = split(path.as_str(), '.');
    assert(parts.deep_view().last() == parts@[parts.len() - 1]@);
    let ext = to_lowercase(parts[parts.len() - 1].as_str());
    let ghost read = content_notices(content@, ext@);
    let mut map = match read_file_content(&content, &ext, log) {
        Ok(map) => map,
        Err(e) => {
            assert(read + Seq::<WarningModel>::empty() =~= read);
            return Err(e);
        },
    };
    map.remove(GLOBAL_SECTION);
    let remarks = map_warnings(&map);
    assert((logged + read) + remarks.deep_view() =~= logged + (read + remarks.deep_view()));
    note_all(log, remarks);
    map_to_job(map)
}

/// Loads the jobs of the configuration file at `path` from the bytes of
/// the file.
pub fn load_file(path: &String, bytes: Vec<u8>, _ctx: &ApplicationContext) -> (r: Result<
    Vec<JobInfo>,
    Error,
>)
    ensures
        match r {
            Ok(jobs) => file_jobs(path@, bytes@) == Ok::<Seq<JobModel>, ErrorModel>(
                jobs.deep_view(),
            ),
            Err(e) => file_jobs(path@, bytes@) == Err::<Seq<JobModel>, ErrorModel>(e@),
        },
{
    let mut log: Vec<Warning> = Vec::new();
    read_file(path, bytes, _ctx, &mut log)
}

/// Loads the jobs that the labels of the listed containers declare, and
/// adds to `log` what there is to remark on the labels and on the jobs.
/// `listings` holds, for each label prefix of the context in order, the
/// containers that carry its `enabled` label, or `None` where the runtime
/// could not list them.
pub fn read_labels(
    ctx: &ApplicationContext,
    listings: &Vec<Option<Vec<Container>>>,
    log: &mut Vec<Warning>,
) -> (r: Result<Vec<JobInfo>, Error>)
    ensures
        match r {
            Ok(jobs) => label_jobs(
                listings.deep_view(),
                ctx.label_prefixes.deep_view(),
                ctx.unsafe_labels,
            ) == Ok::<Seq<JobModel>, ErrorModel>(jobs.deep_view()),
            Err(e) => label_jobs(
                listings.deep_view(),
                ctx.label_prefixes.deep_view(),
                ctx.unsafe_labels,
            ) == Err::<Seq<JobModel>, ErrorModel>(e@),
        },
        final(log).deep_view() == old(log).deep_view() + labels_notices_of(
            listings.deep_view(),
            ctx.label_prefixes.deep_view(),
            ctx.unsafe_labels,
        ),
{
    let ghost logged = log.deep_view();
    let ghost read = label_notices(
        listings.deep_view(),
        ctx.label_prefixes.deep_view(),
        ctx.unsafe_labels,
    );
    let map = match scan_labels(listings, &ctx.label_prefixes, ctx.unsafe_labels, log) {
        Ok(map) => map,
        Err(e) => {
            assert(read + Seq::<WarningModel>::empty() =~= read);
            return Err(e);
        },
    };
    let remarks = map_warnings(&map);
    assert((logged + read) + remarks.deep_view() =~= logged + (read + remarks.deep_view()));
    note_all(log, remarks);
    map_to_job(map)
}

/// Loads the jobs that the labels of the listed containers declare.
/// `listings` holds, for each label prefix of the context in order, the
/// containers that carry its `enabled` label, or `None` where the runtime
/// could not list them.
pub fn load_labels(ctx: &ApplicationContext, listings: &Vec<Option<Vec<Container>>>) -> (r: Result<
    Vec<JobInfo>,
    Error,
>)
    ensures
        match r {
            Ok(jobs) => label_jobs(
                listings.deep_view(),
                ctx.label_prefixes.deep_view(),
                ctx.unsafe_labels,
            ) == Ok::<Seq<JobModel>, ErrorModel>(jobs.deep_view()),
            Err(e) => label_jobs(
                listings.deep_view(),
                ctx.label_prefixes.deep_view(),
                ctx.unsafe_labels,
            ) == Err::<Seq<JobModel>, ErrorModel>(e@),
        },
{
    let mut log: Vec<Warning> = Vec::new();
    read_labels(ctx, listings, &mut log)
}

/// The display strings of a list of jobs.
pub open spec fn displays(jobs: Seq<JobModel>) -> Seq<Seq<char>> {
    Seq::new(jobs.len(), |i: int| jobs[i].display())
}

/// The display strings of a list of jobs.
pub fn display_strings(jobs: &Vec<JobInfo>) -> (r: Vec<String>)
    ensures
        r.deep_view() == displays(jobs.deep_view()),
{
    let mut out: Vec<String> = Vec::new();
    let mut i: usize = 0;
    while i < jobs.len()
        invariant
            i <= jobs.len(),
            out.len() == i,
            forall|j: int| 0 <= j < i ==> out@[j]@ == (#[trigger] jobs@[j])@.display(),
        decreases jobs.len() - i,
    {
        out.push(jobs[i].to_string());
        i += 1;
    }
    assert(out.deep_view() =~= displays(jobs.deep_view()));
    out
}

/// From the normalized map to the jobs and on to their display strings,
/// every step is a function of what it is given: equal maps give equal
/// jobs, or the same error, and equal jobs display alike.
pub proof fn lemma_display_is_determined(a: JobsModel, b: JobsModel)
    requires
        a =~= b,
    ensures
        decoded_jobs(a) == decoded_jobs(b),
        decoded_jobs(a) is Ok ==> displays(decoded_jobs(a)->Ok_0) == displays(
            decoded_jobs(b)->Ok_0,
        ),
{
}

/// Two normalized maps whose jobs say the same, place by place, decode to
/// the same jobs: the keys under which the jobs stand do not matter, nor
/// the order of the attributes, nor whether the name of a job is an
/// attribute or its key.
pub proof fn lemma_equal_content_equal_jobs(a: JobsModel, b: JobsModel)
    requires
        a.len() == b.len(),
        forall|i: int|
            0 <= i < a.len() ==> crate::job::same_content(
                (#[trigger] a[i]).1,
                Some(a[i].0),
                b[i].1,
                Some(b[i].0),
            ),
    ensures
        decoded_jobs(a) == decoded_jobs(b),
    decreases a.len(),
{
    if a.len() > 0 {
        let x = a.drop_last();
        let y = b.drop_last();
        assert forall|i: int| 0 <= i < x.len() implies crate::job::same_content(
            (#[trigger] x[i]).1,
            Some(x[i].0),
            y[i].1,
            Some(y[i].0),
        ) by {
            assert(x[i] == a[i]);
            assert(y[i] == b[i]);
        }
        lemma_equal_content_equal_jobs(x, y);
        let last = a.len() - 1;
        assert(crate::job::same_content(a[last].1, Some(a[last].0), b[last].1, Some(b[last].0)));
        crate::job::lemma_decode_by_content(
            a.last().1,
            Some(a.last().0),
            b.last().1,
            Some(b.last().0),
        );
    }
}

} // verus!
