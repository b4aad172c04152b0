//! Human labels for the status tokens that the server reports for jobs.
use vstd::prelude::*;
use crate::text::{concat3, ends_with, is_suffix, str_eq};

verus! {

/// `s` with every trailing copy of `p` removed.
pub open spec fn strip_suffixes(s: Seq<char>, p: Seq<char>) -> Seq<char>
    decreases s.len(),
{
    if p.len() > 0 && is_suffix(p, s) {
        strip_suffixes(s.subrange(0, s.len() - p.len()), p)
    } else {
        s
    }
}

/// The label of a status token: the known tokens get a word, a token of a
/// running build reads `Building (<base>)`, any other token stands as it is,
/// and an absent one reads `Unknown`.
pub open spec fn job_color_label(color: Option<Seq<char>>) -> Seq<char> {
    match color {
        None => "Unknown"@,
        Some(c) => if c == "blue"@ {
            "Success"@
        } else if c == "red"@ {
            "Failed"@
        } else if c == "yellow"@ {
            "Unstable"@
        } else if c == "aborted"@ {
            "Aborted"@
        } else if c == "notbuilt"@ {
            "Not Built"@
        } else if c == "disabled"@ {
            "Disabled"@
        } else if is_suffix("_anime"@, c) {
            "Building ("@ + strip_suffixes(c, "_anime"@) + ")"@
        } else {
            c
        },
    }
}

fn strip_anime(c: &str) -> (r: &str)
    ensures
        r@ == strip_suffixes(c@, "_anime"@),
{
    let suffix = "_anime";
    let m = suffix.unicode_len();
    let mut cur = c;
    proof {
        reveal_strlit("_anime");
    }
    while ends_with(cur, suffix)
        invariant
            m == 6,
            "_anime"@.len() == 6,
            suffix@ == "_anime"@,
            strip_suffixes(cur@, "_anime"@) == strip_suffixes(c@, "_anime"@),
        decreases cur@.len(),
    {
        let n = cur.unicode_len();
        cur = cur.substring_char(0, n - m);
    }
    cur
}

/// The label of a job's status token, for plain-text display.
pub fn format_job_color(color: Option<&str>) -> (r: String)
    ensures
        r@ == job_color_label(match color {
            Some(c) => Some(c@),
            None => None,
        }),
{
    match color {
        None => String::from_str("Unknown"),
        Some(c) => {
            if str_eq(c, "blue") {
                String::from_str("Success")
            } else if str_eq(c, "red") {
                String::from_str("Failed")
            } else if str_eq(c, "yellow") {
                String::from_str("Unstable")
            } else if str_eq(c, "aborted") {
                String::from_str("Aborted")
            } else if str_eq(c, "notbuilt") {
                String::from_str("Not Built")
            } else if str_eq(c, "disabled") {
                String::from_str("Disabled")
            } else if ends_with(c, "_anime") {
                concat3("Building (", strip_anime(c), ")")
            } else {
                String::from_str(c)
            }
        },
    }
}

} // verus!
