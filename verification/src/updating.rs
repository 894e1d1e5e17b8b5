//! The update check: deciding from a release listing whether a newer
//! version is on offer. The HTTP request itself lives with the caller.

use vstd::prelude::*;
use vstd::string::StrSliceExecFns;

verus! {

/// One release as the hosting service lists it.
#[derive(Clone, Debug)]
pub struct GiteaReleasesResponse {
    pub html_url: String,
    pub tag_name: String,
}

/// What a release tag means next to the running version: nothing if the
/// tag is not `v` followed by a version; otherwise whether that version
/// differs from the running one.
pub open spec fn spec_update_available(tag: Seq<char>, current: Seq<char>) -> Option<bool> {
    if tag.len() == 0 || tag[0] != 'v' {
        None
    } else {
        Some(tag.skip(1) != current)
    }
}

/// Decide whether a release tag announces another version than the one
/// running.
pub fn update_available(tag: &str, current: &str) -> (r: Option<bool>)
    ensures
        r == spec_update_available(tag@, current@),
{
    let tag_len = tag.unicode_len();
    if tag_len == 0 {
        return None;
    }
    if tag.get_char(0) != 'v' {
        return None;
    }
    let cur_len = current.unicode_len();
    if tag_len - 1 != cur_len {
        proof {
            assert(tag@.skip(1).len() != current@.len());
            assert(tag@.skip(1) != current@);
        }
        return Some(true);
    }
    let mut i: usize = 0;
    while i < cur_len
        invariant
            tag_len == tag@.len(),
            cur_len == current@.len(),
            tag_len - 1 == cur_len,
            i <= cur_len,
            tag@.len() > 0 && tag@[0] == 'v',
            forall|j: int| 0 <= j < i ==> tag@.skip(1)[j] == current@[j],
        decreases cur_len - i,
    {
        let tc = tag.get_char(i + 1);
        let cc = current.get_char(i);
        if tc != cc {
            proof {
                assert(tag@.skip(1)[i as int] == tag@[i as int + 1]);
                assert(tag@.skip(1)[i as int] != current@[i as int]);
                assert(tag@.skip(1) != current@);
            }
            return Some(true);
        }
        proof {
            assert(tag@.skip(1)[i as int] == tag@[i as int + 1]);
        }
        i = i + 1;
    }
    proof {
        assert(tag@.skip(1) =~= current@);
    }
    Some(false)
}

} // verus!
