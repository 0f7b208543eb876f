//! The benchmark's fixed build-time parameters.  None of these is runtime
//! configurable; changing a value means recompiling, as the benchmark's
//! design intends.

use vstd::prelude::*;

verus! {

/// Measurement tasks per size class.
pub const SAMPLE_COUNT: usize = 1000;

/// The admission cap: how many tasks may be awaiting a response at once.
/// Deliberately small, so that the benchmark does not distort the latency it
/// measures.
pub const CONCURRENCY_LIMIT: usize = 2;

/// The unconditional pause between size classes, in seconds.
pub const COOLDOWN_SECS: u64 = 10;

/// The echo server's request-body cap, in bytes.
pub const BODY_LIMIT_BYTES: usize = 15 * 1024 * 1024;

/// The ordered size classes, each naming one fixture pair.
pub fn size_class_labels() -> (r: Vec<&'static str>)
    ensures
        r@.len() == 9,
        r@[0]@ == "10kb"@,
        r@[1]@ == "50kb"@,
        r@[2]@ == "100kb"@,
        r@[3]@ == "500kb"@,
        r@[4]@ == "1000kb"@,
        r@[5]@ == "1500kb"@,
        r@[6]@ == "5000kb"@,
        r@[7]@ == "10000kb"@,
        r@[8]@ == "15000kb"@,
{
    let mut r: Vec<&'static str> = Vec::new();
    r.push("10kb");
    r.push("50kb");
    r.push("100kb");
    r.push("500kb");
    r.push("1000kb");
    r.push("1500kb");
    r.push("5000kb");
    r.push("10000kb");
    r.push("15000kb");
    r
}

} // verus!
