//! Which directory entries the shell lists as migration files.
//!
//! The shell lists a project's `migrations` directory for the front end.
//! Reading the directory is the windowing layer's work; the decision of
//! which entry names count — Python sources, leaving out the package
//! marker — is made here.

use vstd::prelude::*;
use vstd::string::*;
use crate::text::str_eq;

verus! {

/// `s` ends with `suffix`.
pub open spec fn ends_with(s: Seq<char>, suffix: Seq<char>) -> bool {
    s.len() >= suffix.len() && s.subrange(s.len() - suffix.len(), s.len() as int) == suffix
}

/// An entry name the migration listing keeps: a `.py` file other than
/// `__init__.py`.
pub open spec fn is_migration_file_name(name: Seq<char>) -> bool {
    ends_with(name, ".py"@) && name != "__init__.py"@
}

/// Whether the migration listing keeps a directory entry of this name.
pub fn migration_file_name(name: &str) -> (r: bool)
    ensures
        r == is_migration_file_name(name@),
{
    proof {
        reveal_strlit(".py");
    }
    let n = name.unicode_len();
    if n < 3 {
        return false;
    }
    let tail = name.substring_char(n - 3, n);
    if !str_eq(tail, ".py") {
        return false;
    }
    let r = !str_eq(name, "__init__.py");
    proof {
        assert(name@.subrange(name@.len() - 3, name@.len() as int) == ".py"@);
    }
    r
}

} // verus!
