//! Composition of the server's well-known REST addresses.
use vstd::prelude::*;
use crate::text::{concat2, concat3, int_text, nat_text, push_int_text, push_usize_text};

verus! {

/// `s` without any of its trailing `/` characters.
pub open spec fn strip_trailing_slashes(s: Seq<char>) -> Seq<char>
    decreases s.len(),
{
    if s.len() > 0 && s.last() == '/' {
        strip_trailing_slashes(s.drop_last())
    } else {
        s
    }
}

/// The address of a job below the server root `host`.
pub open spec fn job_url_spec(host: Seq<char>, job: Seq<char>) -> Seq<char> {
    strip_trailing_slashes(host) + "/job/"@ + job
}

/// The JSON API address of the resource at `base`.
pub open spec fn api_url_spec(base: Seq<char>) -> Seq<char> {
    strip_trailing_slashes(base) + "/api/json"@
}

/// The address of build `n` of a job.
pub open spec fn build_url_spec(host: Seq<char>, job: Seq<char>, n: int) -> Seq<char> {
    job_url_spec(host, job) + "/"@ + int_text(n)
}

/// Removes every trailing `/` from a host address.
pub fn normalize_host_url(host: &str) -> (r: &str)
    ensures
        r@ == strip_trailing_slashes(host@),
{
    let mut k = host.unicode_len();
    assert(host@.subrange(0, k as int) == host@);
    while k > 0 && host.get_char(k - 1) == '/'
        invariant
            k <= host@.len(),
            strip_trailing_slashes(host@.subrange(0, k as int)) == strip_trailing_slashes(host@),
        decreases k,
    {
        assert(host@.subrange(0, k as int).drop_last() == host@.subrange(0, k - 1));
        k = k - 1;
    }
    host.substring_char(0, k)
}

/// The address of job `job_name` on the server at `host`.
pub fn build_job_url(host: &str, job_name: &str) -> (r: String)
    ensures
        r@ == job_url_spec(host@, job_name@),
{
    concat3(normalize_host_url(host), "/job/", job_name)
}

/// The JSON API address of the resource at `base_url`.
pub fn build_api_url(base_url: &str) -> (r: String)
    ensures
        r@ == api_url_spec(base_url@),
{
    concat2(normalize_host_url(base_url), "/api/json")
}

/// The address of build `build_number` of job `job_name`.
pub fn build_build_url(host: &str, job_name: &str, build_number: i32) -> (r: String)
    ensures
        r@ == build_url_spec(host@, job_name@, build_number as int),
{
    let mut r = build_job_url(host, job_name);
    r.append("/");
    push_int_text(&mut r, build_number);
    r
}

/// The root listing of jobs, restricted to name, address and status.
pub fn root_jobs_url(host: &str) -> (r: String)
    ensures
        r@ == api_url_spec(host@) + "?tree=jobs[name,url,color]"@,
{
    let mut r = build_api_url(host);
    r.append("?tree=jobs[name,url,color]");
    r
}

/// The full JSON description of a job.
pub fn job_api_url(host: &str, job_name: &str) -> (r: String)
    ensures
        r@ == job_url_spec(host@, job_name@) + "/api/json"@,
{
    let mut r = build_job_url(host, job_name);
    r.append("/api/json");
    r
}

/// The parameter definitions of a job.
pub fn job_parameters_url(host: &str, job_name: &str) -> (r: String)
    ensures
        r@ == job_url_spec(host@, job_name@) + "/api/json?tree=property[parameterDefinitions[*]]"@,
{
    let mut r = build_job_url(host, job_name);
    r.append("/api/json?tree=property[parameterDefinitions[*]]");
    r
}

/// The JSON description of one build.
pub fn build_details_url(host: &str, job_name: &str, build_number: i32) -> (r: String)
    ensures
        r@ == build_url_spec(host@, job_name@, build_number as int) + "/api/json"@,
{
    let mut r = build_build_url(host, job_name, build_number);
    r.append("/api/json");
    r
}

/// The whole console text of one build.
pub fn console_text_url(host: &str, job_name: &str, build_number: i32) -> (r: String)
    ensures
        r@ == build_url_spec(host@, job_name@, build_number as int) + "/consoleText"@,
{
    let mut r = build_build_url(host, job_name, build_number);
    r.append("/consoleText");
    r
}

/// The console text of one build from character offset `start` on.
pub fn progressive_log_url(host: &str, job_name: &str, build_number: i32, start: usize) -> (r: String)
    ensures
        r@ == build_url_spec(host@, job_name@, build_number as int)
            + "/logText/progressiveText?start="@ + nat_text(start as nat),
{
    let mut r = build_build_url(host, job_name, build_number);
    r.append("/logText/progressiveText?start=");
    push_usize_text(&mut r, start);
    r
}

} // verus!
