//! Configuration: the plain values read from the user's configuration file
//! and the factory that turns them into the benchmark's working parts.
//!
//! Reading and parsing the file, and reading the JSON body files, are done by
//! the shell around this library, which hands the plain values in here.

use vstd::prelude::*;
use crate::request_generator::{method_valid, InvalidMethod, SimpleJsonGetRequest};
use crate::server::{PathExecutableServer, START_GRACE_MILLIS};
use crate::termination::{TimeTermination, MILLIS_PER_SECOND};

verus! {

/// One benchmark pair as configured: which executable to launch and which
/// request stream to drive against it.
pub struct BenchmarkDescription {
    pub executable_path: String,
    pub executable_args: Vec<String>,
    pub url: String,
    pub json_path: Option<String>,
    pub method: Option<String>,
}

/// The validated content of the configuration file: the ordered concurrency
/// levels, the termination duration in seconds, and the benchmark pairs.
pub struct FileConfig {
    pub concurrency_levels: Vec<usize>,
    pub time_termination_in_seconds: i64,
    pub benchmarks: Vec<BenchmarkDescription>,
}

/// The method name a benchmark description asks for: the configured one, or
/// "GET" when none is given.
pub open spec fn spec_effective_method(m: Option<String>) -> Seq<char> {
    match m {
        Some(s) => s@,
        None => "GET"@,
    }
}

/// Whether every benchmark description names a valid HTTP method.
pub open spec fn spec_all_methods_valid(bs: Seq<BenchmarkDescription>) -> bool {
    forall|k: int|
        0 <= k < bs.len() ==> method_valid(spec_effective_method(#[trigger] bs[k].method))
}

/// The first entry of `cache` whose key is `key`, if any.
pub open spec fn spec_cache_lookup(cache: Seq<(String, Vec<u8>)>, key: Seq<char>) -> Option<
    Seq<u8>,
>
    decreases cache.len(),
{
    if cache.len() == 0 {
        None
    } else if cache[0].0@ == key {
        Some(cache[0].1@)
    } else {
        spec_cache_lookup(cache.drop_first(), key)
    }
}

/// The body bytes a benchmark description gets from the file cache: none
/// when it names no JSON file, or when the named file is not in the cache.
pub open spec fn spec_body_for(
    cache: Seq<(String, Vec<u8>)>,
    json_path: Option<String>,
) -> Option<Seq<u8>> {
    match json_path {
        None => None,
        Some(p) => spec_cache_lookup(cache, p@),
    }
}

/// Whether some string of `v` reads `s`.
pub open spec fn spec_contains_string(v: Seq<String>, s: Seq<char>) -> bool {
    exists|i: int| 0 <= i < v.len() && (#[trigger] v[i])@ == s
}

/// Whether some benchmark of `bs` names `p` as its JSON body file.
pub open spec fn spec_names_json_path(bs: Seq<BenchmarkDescription>, p: Seq<char>) -> bool {
    exists|k: int|
        0 <= k < bs.len() && (#[trigger] bs[k].json_path) is Some && bs[k].json_path->0@ == p
}

/// Whether some string of `v` reads the same as `s`.
fn contains_string(v: &Vec<String>, s: &String) -> (r: bool)
    ensures
        r == spec_contains_string(v@, s@),
{
    let mut i: usize = 0;
    while i < v.len()
        invariant
            i <= v@.len(),
            forall|j: int| 0 <= j < i ==> (#[trigger] v@[j])@ != s@,
        decreases v@.len() - i,
    {
        if v[i] == *s {
            return true;
        }
        i = i + 1;
    }
    false
}

/// Builds the benchmark's working parts from the file configuration and a
/// cache of the JSON body files, keyed by their configured paths.
pub struct BenchmarkFactory {
    pub file_config: FileConfig,
    pub files_cache: Vec<(String, Vec<u8>)>,
}

impl BenchmarkFactory {
    /// A factory over the given configuration and body-file cache.
    pub fn new(file_config: FileConfig, files_cache: Vec<(String, Vec<u8>)>) -> (r:
        BenchmarkFactory)
        ensures
            r.file_config == file_config,
            r.files_cache == files_cache,
    {
        BenchmarkFactory { file_config, files_cache }
    }

    /// The distinct JSON body files the benchmarks reference, each exactly
    /// once, so the shell can read each file a single time.
    pub fn required_files(&self) -> (r: Vec<String>)
        ensures
            forall|i: int, j: int| 0 <= i < j < r@.len() ==> (#[trigger] r@[i])@ != (
            #[trigger] r@[j])@,
            forall|i: int|
                0 <= i < r@.len() ==> spec_names_json_path(
                    self.file_config.benchmarks@,
                    (#[trigger] r@[i])@,
                ),
            forall|k: int|
                0 <= k < self.file_config.benchmarks@.len() && (
                #[trigger] self.file_config.benchmarks@[k].json_path) is Some
                    ==> spec_contains_string(
                    r@,
                    self.file_config.benchmarks@[k].json_path->0@,
                ),
    {
        let benchmarks = &self.file_config.benchmarks;
        let mut r: Vec<String> = Vec::new();
        let mut k: usize = 0;
        while k < benchmarks.len()
            invariant
                k <= benchmarks@.len(),
                forall|i: int, j: int| 0 <= i < j < r@.len() ==> (#[trigger] r@[i])@ != (
                #[trigger] r@[j])@,
                forall|i: int|
                    0 <= i < r@.len() ==> spec_names_json_path(benchmarks@, (#[trigger] r@[i])@),
                forall|m: int|
                    0 <= m < k && (#[trigger] benchmarks@[m].json_path) is Some
                        ==> spec_contains_string(r@, benchmarks@[m].json_path->0@),
            decreases benchmarks@.len() - k,
        {
            match &benchmarks[k].json_path {
                Some(p) => {
                    if !contains_string(&r, p) {
                        let ghost before = r@;
                        r.push(p.clone());
                        proof {
                            assert(r@[before.len() as int]@ == p@);
                            assert forall|m: int|
                                0 <= m < k + 1 && (#[trigger] benchmarks@[m].json_path) is Some
                                    implies spec_contains_string(
                                r@,
                                benchmarks@[m].json_path->0@,
                            ) by {
                                if m < k {
                                    let i = choose|i: int|
                                        0 <= i < before.len() && (#[trigger] before[i])@
                                            == benchmarks@[m].json_path->0@;
                                    assert(r@[i]@ == benchmarks@[m].json_path->0@);
                                }
                            }
                        }
                    }
                },
                None => {},
            }
            k = k + 1;
        }
        r
    }

    /// The configured concurrency levels, in the order given.
    pub fn create_concurrency_levels(&self) -> (r: Vec<usize>)
        ensures
            r@ == self.file_config.concurrency_levels@,
    {
        let r = self.file_config.concurrency_levels.clone();
        proof {
            assert(r@ =~= self.file_config.concurrency_levels@);
        }
        r
    }

    /// The termination policy for every worker of the run, with the
    /// configured duration clamped to a minimum of one second.
    pub fn create_termination(&self) -> (r: TimeTermination)
        requires
            self.file_config.time_termination_in_seconds <= i64::MAX / MILLIS_PER_SECOND,
        ensures
            r.start_millis is None,
            r.duration_millis == TimeTermination::effective_duration_millis(
                self.file_config.time_termination_in_seconds as int,
            ),
            r.wf(),
    {
        TimeTermination::from_seconds(self.file_config.time_termination_in_seconds)
    }

    /// One (server handle, request generators) pair per benchmark
    /// description, each generator carrying the configured URL, the
    /// configured method (or "GET"), and the cached body bytes of its JSON
    /// file. Fails exactly when some description names an invalid method.
    pub fn create_executables(&self) -> (r: Result<
        Vec<(PathExecutableServer, Vec<SimpleJsonGetRequest>)>,
        InvalidMethod,
    >)
        ensures
            r is Ok <==> spec_all_methods_valid(self.file_config.benchmarks@),
            r is Ok ==> r->Ok_0@.len() == self.file_config.benchmarks@.len(),
            r is Ok ==> forall|k: int|
                0 <= k < r->Ok_0@.len() ==> self.spec_pair_matches(
                    #[trigger] r->Ok_0@[k],
                    self.file_config.benchmarks@[k],
                ),
    {
        let benchmarks = &self.file_config.benchmarks;
        let mut out: Vec<(PathExecutableServer, Vec<SimpleJsonGetRequest>)> = Vec::new();
        let mut k: usize = 0;
        while k < benchmarks.len()
            invariant
                benchmarks == &self.file_config.benchmarks,
                k <= benchmarks@.len(),
                out@.len() == k,
                forall|m: int|
                    0 <= m < k ==> self.spec_pair_matches(#[trigger] out@[m], benchmarks@[m]),
                forall|m: int|
                    0 <= m < k ==> method_valid(
                        spec_effective_method(#[trigger] benchmarks@[m].method),
                    ),
            decreases benchmarks@.len() - k,
        {
            let b = &benchmarks[k];
            let server = PathExecutableServer::new(
                b.executable_path.clone(),
                b.executable_args.clone(),
            );
            proof {
                assert(server.name@ == b.executable_path@);
                assert forall|j: int| 0 <= j < server.args@.len() implies (
                #[trigger] server.args@[j])@ == b.executable_args@[j]@ by {
                }
            }
            let method: &str = match &b.method {
                Some(m) => m.as_str(),
                None => "GET",
            };
            let body: Option<Vec<u8>> = match &b.json_path {
                Some(p) => self.cache_lookup(p),
                None => None,
            };
            let generator = match SimpleJsonGetRequest::new(body, b.url.clone(), method) {
                Ok(g) => g,
                Err(e) => {
                    proof {
                        assert(method@ == spec_effective_method(benchmarks@[k as int].method));
                        assert(!spec_all_methods_valid(self.file_config.benchmarks@));
                    }
                    return Err(e);
                },
            };
            let mut generators: Vec<SimpleJsonGetRequest> = Vec::new();
            generators.push(generator);
            out.push((server, generators));
            k = k + 1;
        }
        Ok(out)
    }

    /// How one produced pair corresponds to its benchmark description.
    pub open spec fn spec_pair_matches(
        &self,
        pair: (PathExecutableServer, Vec<SimpleJsonGetRequest>),
        b: BenchmarkDescription,
    ) -> bool {
        &&& pair.0.name@ == b.executable_path@
        &&& pair.0.args@.len() == b.executable_args@.len()
        &&& (forall|j: int|
            0 <= j < pair.0.args@.len() ==> (#[trigger] pair.0.args@[j])@
                == b.executable_args@[j]@)
        &&& pair.0.start_grace_millis == START_GRACE_MILLIS
        &&& !pair.0.running
        &&& pair.1@.len() == 1
        &&& pair.1@[0].url@ == b.url@
        &&& pair.1@[0].method@ == spec_effective_method(b.method)
        &&& pair.1@[0].wf()
        &&& match spec_body_for(self.files_cache@, b.json_path) {
            None => pair.1@[0].json_content is None,
            Some(bytes) => pair.1@[0].json_content is Some && pair.1@[0].json_content->0@
                == bytes,
        }
    }

    /// The cached bytes of the body file at `path`, if it was cached.
    fn cache_lookup(&self, path: &String) -> (r: Option<Vec<u8>>)
        ensures
            match r {
                None => spec_cache_lookup(self.files_cache@, path@) is None,
                Some(v) => spec_cache_lookup(self.files_cache@, path@) == Some(v@),
            },
    {
        let cache = &self.files_cache;
        proof {
            assert(cache@.skip(0) =~= cache@);
        }
        let mut i: usize = 0;
        while i < cache.len()
            invariant
                cache == &self.files_cache,
                i <= cache@.len(),
                spec_cache_lookup(cache@, path@) == spec_cache_lookup(
                    cache@.skip(i as int),
                    path@,
                ),
            decreases cache@.len() - i,
        {
            proof {
                assert(cache@.skip(i as int)[0] == cache@[i as int]);
                assert(cache@.skip(i as int).drop_first() =~= cache@.skip(i + 1));
            }
            if cache[i].0 == *path {
                let v = cache[i].1.clone();
                proof {
                    assert(v@ =~= cache@[i as int].1@);
                    assert(cache@.skip(i as int).len() > 0);
                    assert(spec_cache_lookup(cache@.skip(i as int), path@) == Some(
                        cache@[i as int].1@,
                    ));
                }
                return Some(v);
            }
            i = i + 1;
        }
        None
    }
}

} // verus!
