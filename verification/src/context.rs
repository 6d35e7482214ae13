//! What medic knows of the machine it runs on.
use crate::text::{chars_of, string_from_chars, trim, trim_chars};
use crate::utf8_decode;
use vstd::prelude::*;

verus! {

/// The machine medic runs on: its platform, as `uname` names it.
pub struct Context {
    pub platform: String,
}

/// The platform named by the outcome of running `uname`: whether it
/// exited successfully and what it wrote. Its trimmed output when it
/// succeeded with UTF-8 output, otherwise `Unknown` (also when it could not
/// be run at all, `None`).
pub open spec fn platform_name(uname: Option<(bool, Vec<u8>)>) -> Seq<char> {
    match uname {
        Some(out) => if out.0 && vstd::utf8::valid_utf8(out.1@) {
            trim(vstd::utf8::decode_utf8(out.1@))
        } else {
            "Unknown"@
        },
        None => "Unknown"@,
    }
}

/// Whether a platform list admits `platform`: no list or an empty one
/// admits all platforms, otherwise the platform must be listed.
pub open spec fn platform_admitted(platforms: Option<Vec<String>>, platform: Seq<char>) -> bool {
    match platforms {
        None => true,
        Some(list) => list.len() == 0 || exists|i: int| 0 <= i < list.len() && #[trigger] list@[i]@
            == platform,
    }
}

impl Context {
    /// The context for the outcome of running `uname` (see
    /// `platform_name`).
    pub fn new(uname: Option<(bool, Vec<u8>)>) -> (r: Self)
        ensures
            r.platform@ == platform_name(uname),
    {
        let platform = match uname {
            Some(out) => {
                let (success, stdout) = out;
                if success {
                    match utf8_decode(stdout) {
                        Some(s) => {
                            let t = trim_chars(&chars_of(s.as_str()));
                            string_from_chars(&t)
                        },
                        None => "Unknown".to_owned(),
                    }
                } else {
                    "Unknown".to_owned()
                }
            },
            None => "Unknown".to_owned(),
        };
        Context { platform }
    }

    /// Whether `platforms` admits this context's platform.
    pub fn matches_platform(&self, platforms: &Option<Vec<String>>) -> (r: bool)
        ensures
            r == platform_admitted(*platforms, self.platform@),
    {
        match platforms {
            None => true,
            Some(list) => {
                if list.len() == 0 {
                    return true;
                }
                let mut i: usize = 0;
                while i < list.len()
                    invariant
                        i <= list.len(),
                        *platforms == Some(*list),
                        forall|j: int| 0 <= j < i ==> list@[j]@ != self.platform@,
                    decreases list.len() - i,
                {
                    if list[i] == self.platform {
                        assert(list@[i as int]@ == self.platform@);
                        return true;
                    }
                    i = i + 1;
                }
                false
            },
        }
    }
}

/// A platform list admits every platform it names, wherever it stands in
/// the list; a non-empty list admits no platform it does not name; no list
/// and the empty list admit every platform.
pub proof fn lemma_listed_platforms_admitted(list: Vec<String>, platform: Seq<char>)
    ensures
        forall|i: int| 0 <= i < list.len() ==> platform_admitted(Some(list), #[trigger] list@[i]@),
        list.len() > 0 && (forall|i: int| 0 <= i < list.len() ==> #[trigger] list@[i]@ != platform)
            ==> !platform_admitted(Some(list), platform),
        platform_admitted(None, platform),
        list.len() == 0 ==> platform_admitted(Some(list), platform),
{
}

} // verus!
