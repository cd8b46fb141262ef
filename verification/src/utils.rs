//! File-path helpers of the LLM side, and the model downloader's record.
//! Reading and writing files happens outside the library.

use vstd::prelude::*;
use crate::text::{str_to_chars, chars_to_string, join_with, join_with_in};

verus! {

/// The model downloader; the transfer itself is the caller's.
pub struct Download {}

/// File helpers shared by the LLM side.
pub struct FileUtils {}

impl FileUtils {
    /// Join path components with a directory separator, in order.
    pub fn str_list_to_dir_path(str_list: &Vec<String>) -> (r: String)
        ensures
            r@ == join_with(str_list@.map_values(|s: String| s@), seq!['/']),
    {
        let n = str_list.len();
        let mut parts: Vec<Vec<char>> = Vec::new();
        let mut i: usize = 0;
        while i < n
            invariant
                n == str_list@.len(),
                i <= n,
                parts@.map_values(|v: Vec<char>| v@) == str_list@.subrange(0, i as int).map_values(
                    |s: String| s@,
                ),
            decreases n - i,
        {
            parts.push(str_to_chars(str_list[i].as_str()));
            proof {
                let f = |s: String| s@;
                let g = |v: Vec<char>| v@;
                let pre = str_list@.subrange(0, i as int);
                let post = str_list@.subrange(0, i + 1);
                assert(post =~= pre.push(str_list@[i as int]));
                assert(post.map_values(f) =~= pre.map_values(f).push(f(str_list@[i as int])));
                assert(parts@.map_values(g) =~= pre.map_values(f).push(f(str_list@[i as int])));
            }
            i += 1;
        }
        proof {
            assert(str_list@.subrange(0, n as int) =~= str_list@);
        }
        let mut sep: Vec<char> = Vec::new();
        sep.push('/');
        proof {
            assert(sep@ =~= seq!['/']);
        }
        let joined = join_with_in(&parts, &sep);
        chars_to_string(&joined)
    }
}

} // verus!
