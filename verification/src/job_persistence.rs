//! Persisting jobs: the persistence errors, the plain record written for a
//! job, jobs that can describe themselves as such a record, and the names
//! and timing rules of the files. Reading and writing the files, and the
//! JSON encoding, belong to the runtime. Points in time are milliseconds
//! on the clock of `crate::clock`.
use vstd::prelude::*;
use vstd::string::*;
use crate::clock::now_millis;
use crate::error::{io_error_text, Result};
use crate::job::Job;
use crate::text::{concat2, decimal, decimal_text};

verus! {

/// Error of job persistence.
#[derive(Debug)]
pub enum PersistenceError {
    /// Serialization or deserialization failed.
    SerializationError(String),
    /// A file operation failed.
    FileError(std::io::Error),
    /// The persistence directory is not usable.
    InvalidDirectory(String),
    /// Job data is missing.
    MissingJobData(String),
}

/// The message of a persistence error; a file error is described by
/// `io_text`.
pub open spec fn persistence_text(e: PersistenceError, io_text: Seq<char>) -> Seq<char> {
    match e {
        PersistenceError::SerializationError(m) => "Serialization error: "@ + m@,
        PersistenceError::FileError(_) => "File I/O error: "@ + io_text,
        PersistenceError::InvalidDirectory(m) => "Invalid persistence directory: "@ + m@,
        PersistenceError::MissingJobData(m) => "Missing job data: "@ + m@,
    }
}

impl PersistenceError {
    /// The message of the error, with the text of a file error given.
    pub fn message_with(&self, io_text: &str) -> (s: String)
        ensures
            s@ == persistence_text(*self, io_text@),
    {
        proof {
            reveal_strlit("Serialization error: ");
            reveal_strlit("File I/O error: ");
            reveal_strlit("Invalid persistence directory: ");
            reveal_strlit("Missing job data: ");
        }
        match self {
            PersistenceError::SerializationError(m) => concat2("Serialization error: ", m.as_str()),
            PersistenceError::FileError(_) => concat2("File I/O error: ", io_text),
            PersistenceError::InvalidDirectory(m) => concat2("Invalid persistence directory: ", m.as_str()),
            PersistenceError::MissingJobData(m) => concat2("Missing job data: ", m.as_str()),
        }
    }

    /// The message of the error.
    pub fn to_string(&self) -> (s: String)
        ensures
            !(self is FileError) ==> s@ == persistence_text(*self, Seq::empty()),
            self is FileError ==> exists|t: Seq<char>| s@ == persistence_text(*self, t),
    {
        match self {
            PersistenceError::FileError(e) => {
                let t = io_error_text(e);
                self.message_with(t.as_str())
            },
            _ => self.message_with(""),
        }
    }
}

impl From<PersistenceError> for crate::error::Error {
    /// A file error becomes an I/O error; the others become `Other` errors
    /// with the persistence error's message.
    fn from(err: PersistenceError) -> (e: crate::error::Error)
        ensures
            match err {
                PersistenceError::FileError(io) => e == crate::error::Error::IoError(io),
                _ => e matches crate::error::Error::Other(m) && m@ == persistence_text(err, Seq::empty()),
            },
    {
        match err {
            PersistenceError::FileError(io) => crate::error::Error::IoError(io),
            other => {
                let m = other.message_with("");
                crate::error::Error::Other(m)
            },
        }
    }
}

impl vstd::std_specs::convert::FromSpecImpl<PersistenceError> for crate::error::Error {
    /// The conversion is described by the `ensures` of `from`.
    open spec fn obeys_from_spec() -> bool {
        false
    }

    /// Not used: the conversion is described by the `ensures` of `from`.
    open spec fn from_spec(v: PersistenceError) -> crate::error::Error {
        vstd::pervasive::arbitrary()
    }
}

/// The record written for a persisted job.
#[derive(Debug, Clone)]
pub struct SerializableJob {
    /// Unique identifier of the job.
    pub id: String,
    /// Description of the job.
    pub description: String,
    /// When the record was made (clock milliseconds).
    pub creation_time: u64,
    /// Serialized data of the job, specific to its type.
    pub data: String,
    /// Type of the job, which selects its deserializer.
    pub job_type: String,
}

impl SerializableJob {
    /// A record made at clock time `now`.
    pub fn new_at(id: &str, description: &str, data: &str, job_type: &str, now: u64) -> (j: Self)
        ensures
            j.id@ == id@,
            j.description@ == description@,
            j.data@ == data@,
            j.job_type@ == job_type@,
            j.creation_time == now,
    {
        SerializableJob {
            id: String::from_str(id),
            description: String::from_str(description),
            creation_time: now,
            data: String::from_str(data),
            job_type: String::from_str(job_type),
        }
    }

    /// A record made now.
    pub fn new(id: &str, description: &str, data: &str, job_type: &str) -> (j: Self)
        ensures
            j.id@ == id@,
            j.description@ == description@,
            j.data@ == data@,
            j.job_type@ == job_type@,
    {
        Self::new_at(id, description, data, job_type, now_millis())
    }
}

/// A job that can describe itself as a record.
pub trait PersistableJob: Job {
    /// The record of the job.
    fn serialize(&self) -> Result<SerializableJob>;

    /// The type of the job.
    fn job_type(&self) -> &'static str;
}

/// Rebuilds jobs of one type from their records.
pub trait JobDeserializer: Send + Sync {
    /// The job of a record.
    fn deserialize(&self, job: &SerializableJob) -> Result<Box<dyn Job>>;

    /// The type of job handled.
    fn job_type(&self) -> &'static str;
}

/// The type of a persistable callback job.
pub open spec fn callback_job_type() -> Seq<char> {
    "persistable_callback_job"@
}

/// A persistable job that runs a callback.
pub struct PersistableCallbackJob<F> where F: Fn() -> Result<()> + Send + Sync {
    id: String,
    description: String,
    creation_time: u64,
    serialized_data: String,
    executor: F,
}

impl<F> PersistableCallbackJob<F> where F: Fn() -> Result<()> + Send + Sync {
    #[verifier::type_invariant]
    spec fn runnable(self) -> bool {
        self.executor.requires(())
    }

    /// The identifier of the job.
    pub closed spec fn ident(self) -> Seq<char> {
        self.id@
    }

    /// The description of the job.
    pub closed spec fn described(self) -> Seq<char> {
        self.description@
    }

    /// The serialized data of the job.
    pub closed spec fn payload(self) -> Seq<char> {
        self.serialized_data@
    }

    /// When the job was created.
    pub closed spec fn created(self) -> u64 {
        self.creation_time
    }

    /// The callback of the job.
    pub closed spec fn executor(self) -> F {
        self.executor
    }

    /// A job created now.
    pub fn new(id: &str, description: &str, data: &str, executor: F) -> (j: Self)
        requires
            executor.requires(()),
        ensures
            j.ident() == id@,
            j.described() == description@,
            j.payload() == data@,
            j.executor() == executor,
    {
        PersistableCallbackJob {
            id: String::from_str(id),
            description: String::from_str(description),
            creation_time: now_millis(),
            serialized_data: String::from_str(data),
            executor,
        }
    }

    /// The identifier of the job.
    pub fn id(&self) -> (s: &str)
        ensures
            s@ == self.ident(),
    {
        self.id.as_str()
    }

    /// The serialized data of the job.
    pub fn serialized_data(&self) -> (s: &str)
        ensures
            s@ == self.payload(),
    {
        self.serialized_data.as_str()
    }
}

impl<F> Job for PersistableCallbackJob<F> where F: Fn() -> Result<()> + Send + Sync {
    closed spec fn created_at(&self) -> u64 {
        self.creation_time
    }

    /// What the executor can return.
    open spec fn can_give(&self, r: Result<()>) -> bool {
        self.executor().ensures((), r)
    }

    open spec fn description_text(&self) -> Seq<char> {
        self.described()
    }

    fn execute(&mut self) -> (r: Result<()>)
        ensures
            old(self).executor().ensures((), r),
            *final(self) == *old(self),
    {
        proof { use_type_invariant(&*self); }
        (self.executor)()
    }

    fn description(&self) -> (d: String)
        ensures
            d@ == self.described(),
    {
        self.description.clone()
    }

    fn creation_time(&self) -> (t: u64)
        ensures
            t == self.created(),
    {
        self.creation_time
    }
}

impl<F> PersistableJob for PersistableCallbackJob<F> where F: Fn() -> Result<()> + Send + Sync {
    /// The record of the job, made now.
    fn serialize(&self) -> (r: Result<SerializableJob>)
        ensures
            r matches Ok(j) && j.id@ == self.ident() && j.description@ == self.described()
                && j.data@ == self.payload() && j.job_type@ == callback_job_type(),
    {
        let t = PersistableJob::job_type(self);
        Ok(SerializableJob::new(self.id.as_str(), self.description.as_str(), self.serialized_data.as_str(), t))
    }

    fn job_type(&self) -> (t: &'static str)
        ensures
            t@ == callback_job_type(),
    {
        proof { reveal_strlit("persistable_callback_job"); }
        "persistable_callback_job"
    }
}

/// Rebuilds persistable callback jobs: `factory` makes the callback of a
/// job from its serialized data.
#[verifier::reject_recursive_types(E)]
pub struct PersistableCallbackJobDeserializer<G, E>
    where G: Fn(&str) -> E + Send + Sync, E: Fn() -> Result<()> + Send + Sync + 'static
{
    factory: G,
    made: std::marker::PhantomData<E>,
}

impl<G, E> PersistableCallbackJobDeserializer<G, E>
    where G: Fn(&str) -> E + Send + Sync, E: Fn() -> Result<()> + Send + Sync + 'static
{
    #[verifier::type_invariant]
    spec fn factory_usable(self) -> bool {
        &&& forall|d: &str| #[trigger] self.factory.requires((d,))
        &&& forall|d: &str, e: E| #[trigger] self.factory.ensures((d,), e) ==> e.requires(())
    }

    /// The factory that makes the callbacks of rebuilt jobs.
    pub closed spec fn maker(self) -> G {
        self.factory
    }

    /// A deserializer whose callbacks `factory` makes; the factory accepts
    /// any data and makes callbacks that can always be called.
    pub fn new(factory: G) -> (d: Self)
        requires
            forall|d: &str| #[trigger] factory.requires((d,)),
            forall|d: &str, e: E| #[trigger] factory.ensures((d,), e) ==> e.requires(()),
        ensures
            d.maker() == factory,
    {
        PersistableCallbackJobDeserializer { factory, made: std::marker::PhantomData }
    }
}

impl<G, E> JobDeserializer for PersistableCallbackJobDeserializer<G, E>
    where G: Fn(&str) -> E + Send + Sync, E: Fn() -> Result<()> + Send + Sync + 'static
{
    /// A persistable callback job with the record's identifier, description
    /// and data, created now, running the callback the factory makes from
    /// the data.
    fn deserialize(&self, job: &SerializableJob) -> (r: Result<Box<dyn Job>>)
        ensures
            r is Ok,
    {
        proof { use_type_invariant(self); }
        let executor = (self.factory)(job.data.as_str());
        let rebuilt = PersistableCallbackJob::new(job.id.as_str(), job.description.as_str(), job.data.as_str(), executor);
        let boxed: Box<dyn Job> = Box::new(rebuilt);
        Ok(boxed)
    }

    fn job_type(&self) -> (t: &'static str)
        ensures
            t@ == callback_job_type(),
    {
        proof { reveal_strlit("persistable_callback_job"); }
        "persistable_callback_job"
    }
}

/// The name of the file of job `id`.
pub fn job_file_name(id: &str) -> (s: String)
    ensures
        s@ == id@ + ".json"@,
{
    concat2(id, ".json")
}

/// The name of the backup file made at `secs` seconds since the epoch.
pub fn backup_file_name(secs: u64) -> (s: String)
    ensures
        s@ == "backup_"@ + decimal_text(secs as nat) + ".json"@,
{
    let d = decimal(secs);
    let s = concat2("backup_", d.as_str());
    concat2(s.as_str(), ".json")
}

/// `s` with every space replaced by an underscore.
pub open spec fn underscored(s: Seq<char>) -> Seq<char> {
    s.map_values(|c: char| if c == ' ' { '_' } else { c })
}

/// Replace every space of `s` by an underscore.
pub fn underscore_spaces(s: &str) -> (r: String)
    ensures
        r@ == underscored(s@),
{
    let n = s.unicode_len();
    let mut out = String::new();
    let mut i: usize = 0;
    while i < n
        invariant
            n == s@.len(),
            i <= n,
            out@ == underscored(s@.take(i as int)),
        decreases n - i,
    {
        let c = s.get_char(i);
        let piece = if c == ' ' { "_" } else { s.substring_char(i, i + 1) };
        proof {
            reveal_strlit("_");
            assert(s@.subrange(i as int, i + 1) =~= seq![c]);
            assert(underscored(s@.take(i as int + 1)) =~= underscored(s@.take(i as int)).push(if c == ' ' { '_' } else { c }));
        }
        out.append(piece);
        i = i + 1;
    }
    proof { assert(s@.take(n as int) =~= s@); }
    out
}

/// The identifier of a batch described by `description`, persisted at
/// `secs` seconds since the epoch.
pub fn batch_id(description: &str, secs: u64) -> (s: String)
    ensures
        s@ == "batch_"@ + underscored(description@) + "_"@ + decimal_text(secs as nat),
{
    let d = underscore_spaces(description);
    let s = concat2("batch_", d.as_str());
    let s = concat2(s.as_str(), "_");
    let n = decimal(secs);
    concat2(s.as_str(), n.as_str())
}

/// Whether a backup is due at clock time `now` after one made at
/// `last_backup`, with backups every `interval` milliseconds. Time before
/// `last_backup` counts as none elapsed.
pub fn backup_needed_at(last_backup: u64, now: u64, interval: u64) -> (b: bool)
    ensures
        b == ((if now >= last_backup { now - last_backup } else { 0 }) >= interval),
{
    now.saturating_sub(last_backup) >= interval
}

/// The position of the last `'.'` in `s`, or -1 where there is none.
pub open spec fn last_dot(s: Seq<char>) -> int
    decreases s.len(),
{
    if s.len() == 0 {
        -1
    } else if s.last() == '.' {
        s.len() - 1
    } else {
        last_dot(s.drop_last())
    }
}

/// The extension of a file name as `std::path::Path::extension` documents
/// it: none without a `'.'`, none for a name whose only `'.'` is its first
/// character, otherwise the text after the final `'.'`.
pub open spec fn extension_of(name: Seq<char>) -> Option<Seq<char>> {
    let d = last_dot(name);
    if d <= 0 { None } else { Some(name.subrange(d + 1, name.len() as int)) }
}

/// The position of the last `'.'` lies within the text.
proof fn lemma_last_dot_range(s: Seq<char>)
    ensures
        -1 <= last_dot(s) < s.len(),
        last_dot(s) >= 0 ==> s[last_dot(s)] == '.',
    decreases s.len(),
{
    if s.len() > 0 && s.last() != '.' {
        lemma_last_dot_range(s.drop_last());
    }
}

/// The position of the last `'.'` among the first `n` characters.
fn last_dot_before(name: &str, n: usize) -> (d: i64)
    requires
        n <= name@.len(),
        name@.len() < i64::MAX,
    ensures
        d == last_dot(name@.take(n as int)),
    decreases n,
{
    if n == 0 {
        return -1;
    }
    proof { assert(name@.take(n as int).drop_last() =~= name@.take(n - 1)); }
    if name.get_char(n - 1) == '.' {
        (n - 1) as i64
    } else {
        last_dot_before(name, n - 1)
    }
}

/// The extension of the file name `name`.
pub fn file_extension(name: &str) -> (e: Option<String>)
    requires
        name@.len() < i64::MAX,
    ensures
        match extension_of(name@) {
            Some(x) => e matches Some(s) && s@ == x,
            None => e.is_none(),
        },
{
    let n = name.unicode_len();
    let d = last_dot_before(name, n);
    proof {
        assert(name@.take(n as int) =~= name@);
        lemma_last_dot_range(name@);
    }
    if d <= 0 {
        None
    } else {
        let start = d as usize + 1;
        Some(String::from_str(name.substring_char(start, n)))
    }
}

/// Whether `s` begins with `prefix`.
pub open spec fn begins_with(s: Seq<char>, prefix: Seq<char>) -> bool {
    prefix.len() <= s.len() && s.subrange(0, prefix.len() as int) == prefix
}

/// Whether `s` begins with `prefix`.
pub fn starts_with_text(s: &str, prefix: &str) -> (b: bool)
    ensures
        b == begins_with(s@, prefix@),
{
    let n = s.unicode_len();
    let m = prefix.unicode_len();
    if m > n {
        return false;
    }
    let mut i: usize = 0;
    while i < m
        invariant
            m <= n,
            n == s@.len(),
            m == prefix@.len(),
            i <= m,
            forall|k: int| 0 <= k < i ==> s@[k] == prefix@[k],
        decreases m - i,
    {
        if s.get_char(i) != prefix.get_char(i) {
            assert(s@.subrange(0, m as int)[i as int] != prefix@[i as int]);
            return false;
        }
        i = i + 1;
    }
    assert(s@.subrange(0, m as int) =~= prefix@);
    true
}

/// Whether a file named `name` holds JSON (its extension is `json`).
pub open spec fn is_json_name(name: Seq<char>) -> bool {
    extension_of(name) == Some("json"@)
}

/// Whether a file named `name` is a JSON file of the persistence
/// directory: a backup when `backup` is set (its name begins with
/// `"backup_"`), a job record otherwise.
pub fn is_persistence_file(name: &str, backup: bool) -> (b: bool)
    requires
        name@.len() < i64::MAX,
    ensures
        b == (is_json_name(name@) && begins_with(name@, "backup_"@) == backup),
{
    proof {
        reveal_strlit("json");
        reveal_strlit("backup_");
    }
    let json = match file_extension(name) {
        Some(e) => {
            let ok = e.as_str().unicode_len() == 4 && starts_with_text(e.as_str(), "json");
            proof {
                if e@.len() == 4 {
                    assert(e@.subrange(0, 4) =~= e@);
                }
                if ok {
                    assert(e@ =~= "json"@);
                }
            }
            ok
        },
        None => false,
    };
    assert(json == is_json_name(name@));
    json && starts_with_text(name, "backup_") == backup
}

/// The backup to load among files last modified at `times`: the newest,
/// the first of them where several are equally new.
pub fn newest_index(times: &Vec<u64>) -> (r: Option<usize>)
    ensures
        r.is_none() == (times@.len() == 0),
        r matches Some(i) ==> i < times@.len()
            && (forall|j: int| 0 <= j < times@.len() ==> times@[j] <= times@[i as int])
            && (forall|j: int| 0 <= j < i ==> times@[j] < times@[i as int]),
{
    if times.len() == 0 {
        return None;
    }
    let mut best: usize = 0;
    let mut i: usize = 1;
    while i < times.len()
        invariant
            1 <= i <= times@.len(),
            best < i,
            forall|j: int| 0 <= j < i ==> times@[j] <= times@[best as int],
            forall|j: int| 0 <= j < best ==> times@[j] < times@[best as int],
        decreases times@.len() - i,
    {
        if times[i] > times[best] {
            best = i;
        }
        i = i + 1;
    }
    Some(best)
}

} // verus!
