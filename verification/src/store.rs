//! The directory that holds the scripts, and the paths in it.
//!
//! Paths are texts in the notation of Unix: `/` separates the parts, and a
//! path that starts with `/` is absolute.

use vstd::prelude::*;
use vstd::string::*;

verus! {

/// Where the store lies, seen from the user's home directory.
pub const STORE_UNDER_HOME: &'static str = ".fastbash/scripts";

/// Whether `path` is absolute.
pub open spec fn is_absolute(path: Seq<char>) -> bool {
    path.len() > 0 && path[0] == '/'
}

/// `rest` adjoined to `base`: an absolute `rest` stands for itself, and any
/// other follows `base` behind one separator, which is added unless `base`
/// is empty or already ends with one.
pub open spec fn adjoined(base: Seq<char>, rest: Seq<char>) -> Seq<char> {
    if is_absolute(rest) {
        rest
    } else if base.len() == 0 || base.last() == '/' {
        base + rest
    } else {
        base + seq!['/'] + rest
    }
}

/// The store of the user whose home directory is `home`.
pub open spec fn store_under(home: Seq<char>) -> Seq<char> {
    adjoined(home, STORE_UNDER_HOME@)
}

/// A name that is not absolute lies under the directory it is adjoined to:
/// the path starts with the directory and ends with the name.
pub proof fn law_relative_name_lies_under_base(base: Seq<char>, name: Seq<char>)
    requires
        !is_absolute(name),
    ensures
        adjoined(base, name).len() >= base.len() + name.len(),
        adjoined(base, name).take(base.len() as int) == base,
        adjoined(base, name).skip(adjoined(base, name).len() - name.len()) == name,
{
    let path = adjoined(base, name);
    assert(path.take(base.len() as int) =~= base);
    assert(path.skip(path.len() - name.len()) =~= name);
}

/// Two names that are not absolute and differ give two paths in one store.
pub proof fn law_names_give_distinct_paths(base: Seq<char>, first: Seq<char>, second: Seq<char>)
    requires
        !is_absolute(first),
        !is_absolute(second),
        first != second,
    ensures
        adjoined(base, first) != adjoined(base, second),
{
    let stem = if base.len() == 0 || base.last() == '/' {
        base
    } else {
        base + seq!['/']
    };
    assert(adjoined(base, first) =~= stem + first);
    assert(adjoined(base, second) =~= stem + second);
    if stem + first == stem + second {
        assert((stem + first).skip(stem.len() as int) =~= first);
        assert((stem + second).skip(stem.len() as int) =~= second);
    }
}

/// Adjoins `rest` to `base`.
pub fn adjoin(base: &str, rest: &str) -> (path: String)
    ensures
        path@ == adjoined(base@, rest@),
{
    proof {
        reveal_strlit("/");
    }
    if rest.unicode_len() > 0 && rest.get_char(0) == '/' {
        String::from_str(rest)
    } else {
        let length: usize = base.unicode_len();
        if length == 0 || base.get_char(length - 1) == '/' {
            String::from_str(base).concat(rest)
        } else {
            assert("/"@ =~= seq!['/']);
            String::from_str(base).concat("/").concat(rest)
        }
    }
}

/// The path of the store of the user whose home directory is `home`.
pub fn store_dir(home: &str) -> (path: String)
    ensures
        path@ == store_under(home@),
{
    adjoin(home, STORE_UNDER_HOME)
}

/// The path of the script called `name` in the store at `store`.
pub fn script_path(store: &str, name: &str) -> (path: String)
    ensures
        path@ == adjoined(store@, name@),
{
    adjoin(store, name)
}

} // verus!
