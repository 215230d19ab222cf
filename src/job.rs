use vstd::prelude::*;

verus! {

pub const DEFAULT_CONCURRENCY: usize = 1;
pub const DEFAULT_DURATION: usize = 10;
pub const DEFAULT_TIMEOUT: usize = 60;
pub const DEFAULT_RATIO: usize = 10;

#[verifier::external_type_specification]
#[verifier::external_body]
pub struct ExUrl(url::Url);

#[verifier::external_type_specification]
#[verifier::external_body]
pub struct ExParseError(url::ParseError);

/// Whether `url::Url::parse` accepts the text.
pub uninterp spec fn url_parses(s: Seq<char>) -> bool;

/// Relies on url::Url::parse: whether it succeeds depends on the text alone.
#[verifier::external_body]
fn parse_url(s: &str) -> (r: Result<url::Url, url::ParseError>)
    ensures
        r.is_ok() == url_parses(s@),
{
    url::Url::parse(s)
}

/// The settings of one run.
pub struct Job {
    /// Number of workers.
    pub concurrency: usize,
    /// Seconds to run.
    pub duration: usize,
    /// Seconds each request may take.
    pub time_out: usize,
    /// Queue depth per worker at the start.
    pub ratio: usize,
    /// The target.
    pub url: String,
}

/// Why a job could not be built.
#[derive(Debug, PartialEq, Eq, Structural)]
pub enum JobError {
    /// The target is not an absolute URL.
    InvalidUrl,
}

impl Job {
    /// Every setting at its default, for the target `url`.
    pub open spec fn is_default_for(&self, url: Seq<char>) -> bool {
        &&& self.concurrency == DEFAULT_CONCURRENCY
        &&& self.duration == DEFAULT_DURATION
        &&& self.time_out == DEFAULT_TIMEOUT
        &&& self.ratio == DEFAULT_RATIO
        &&& self.url@ == url
    }
}

impl Default for Job {
    fn default() -> (r: Job)
        ensures
            r.is_default_for(Seq::<char>::empty()),
    {
        Job {
            concurrency: DEFAULT_CONCURRENCY,
            duration: DEFAULT_DURATION,
            time_out: DEFAULT_TIMEOUT,
            ratio: DEFAULT_RATIO,
            url: String::new(),
        }
    }
}

pub fn default_concurrency() -> (r: usize)
    ensures
        r == DEFAULT_CONCURRENCY,
{
    DEFAULT_CONCURRENCY
}

pub fn default_duration() -> (r: usize)
    ensures
        r == DEFAULT_DURATION,
{
    DEFAULT_DURATION
}

pub fn default_time_out() -> (r: usize)
    ensures
        r == DEFAULT_TIMEOUT,
{
    DEFAULT_TIMEOUT
}

pub fn default_ratio() -> (r: usize)
    ensures
        r == DEFAULT_RATIO,
{
    DEFAULT_RATIO
}

/// A job for the target `target` with every other setting at its default;
/// refused where the target does not parse as a URL.
pub fn from_url(target: String) -> (r: Result<Job, JobError>)
    ensures
        r.is_ok() == url_parses(target@),
        r matches Ok(j) ==> j.is_default_for(target@),
        r matches Err(e) ==> e == JobError::InvalidUrl,
{
    match parse_url(target.as_str()) {
        Ok(_) => {
            let mut j = Job::default();
            j.url = target;
            Ok(j)
        },
        Err(_) => Err(JobError::InvalidUrl),
    }
}

/// A job read from a settings record, kept as it is where its URL parses.
pub fn from_record(job: Job) -> (r: Result<Job, JobError>)
    ensures
        r.is_ok() == url_parses(job.url@),
        r matches Ok(j) ==> j == job,
        r matches Err(e) ==> e == JobError::InvalidUrl,
{
    match parse_url(job.url.as_str()) {
        Ok(_) => Ok(job),
        Err(_) => Err(JobError::InvalidUrl),
    }
}

} // verus!
