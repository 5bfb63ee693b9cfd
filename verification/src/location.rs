//! Path scheme of the layer.
//!
//! Two pure functions map a (region directory, file id) pair to the address
//! of the data object and of the auxiliary index object.  The mapping is
//! referentially transparent: each executable function returns exactly the
//! sequence of characters given by its spec function, so identical inputs
//! always yield byte-identical paths.  The file id is the address, modulo
//! the region directory prefix; no separate location registry exists.

use vstd::prelude::*;
use vstd::string::StrSliceExecFns;
use vstd::string::StringExecFns;

use crate::file::FileId;

verus! {

/// The character of one decimal digit.
pub open spec fn decimal_digit(d: int) -> char {
    if d == 0 {
        '0'
    } else if d == 1 {
        '1'
    } else if d == 2 {
        '2'
    } else if d == 3 {
        '3'
    } else if d == 4 {
        '4'
    } else if d == 5 {
        '5'
    } else if d == 6 {
        '6'
    } else if d == 7 {
        '7'
    } else if d == 8 {
        '8'
    } else {
        '9'
    }
}

/// The decimal representation of `n`, most significant digit first.
pub open spec fn decimal_of(n: nat) -> Seq<char>
    decreases n,
{
    if n < 10 {
        seq![decimal_digit(n as int)]
    } else {
        decimal_of(n / 10).push(decimal_digit((n % 10) as int))
    }
}

/// The prefix that a directory contributes to a joined path: the directory
/// itself if it already ends with a separator, otherwise the directory with
/// one separator appended; an empty directory contributes nothing.
pub open spec fn dir_prefix(dir: Seq<char>) -> Seq<char> {
    if dir.len() == 0 {
        Seq::empty()
    } else if dir.last() == '/' {
        dir
    } else {
        dir + seq!['/']
    }
}

/// The path of an object named `name` under the directory `dir`.
pub open spec fn join_path_spec(dir: Seq<char>, name: Seq<char>) -> Seq<char> {
    dir_prefix(dir) + name
}

/// The name of the data object of `file_id`.
pub open spec fn sst_file_name_spec(file_id: FileId) -> Seq<char> {
    decimal_of(file_id.value as nat) + ".parquet"@
}

/// The name of the index object of `file_id`.
pub open spec fn index_file_name_spec(file_id: FileId) -> Seq<char> {
    decimal_of(file_id.value as nat) + ".puffin"@
}

/// The address of the data object of `file_id` under `region_dir`.
pub open spec fn sst_file_path_spec(region_dir: Seq<char>, file_id: FileId) -> Seq<char> {
    join_path_spec(region_dir, sst_file_name_spec(file_id))
}

/// The address of the index object of `file_id` under `region_dir`.
pub open spec fn index_file_path_spec(region_dir: Seq<char>, file_id: FileId) -> Seq<char> {
    join_path_spec(region_dir, index_file_name_spec(file_id))
}

fn digit_str(d: u64) -> (r: &'static str)
    requires
        d < 10,
    ensures
        r@ == seq![decimal_digit(d as int)],
{
    if d == 0 {
        proof {
            reveal_strlit("0");
            assert("0"@ =~= seq![decimal_digit(0)]);
        }
        "0"
    } else if d == 1 {
        proof {
            reveal_strlit("1");
            assert("1"@ =~= seq![decimal_digit(1)]);
        }
        "1"
    } else if d == 2 {
        proof {
            reveal_strlit("2");
            assert("2"@ =~= seq![decimal_digit(2)]);
        }
        "2"
    } else if d == 3 {
        proof {
            reveal_strlit("3");
            assert("3"@ =~= seq![decimal_digit(3)]);
        }
        "3"
    } else if d == 4 {
        proof {
            reveal_strlit("4");
            assert("4"@ =~= seq![decimal_digit(4)]);
        }
        "4"
    } else if d == 5 {
        proof {
            reveal_strlit("5");
            assert("5"@ =~= seq![decimal_digit(5)]);
        }
        "5"
    } else if d == 6 {
        proof {
            reveal_strlit("6");
            assert("6"@ =~= seq![decimal_digit(6)]);
        }
        "6"
    } else if d == 7 {
        proof {
            reveal_strlit("7");
            assert("7"@ =~= seq![decimal_digit(7)]);
        }
        "7"
    } else if d == 8 {
        proof {
            reveal_strlit("8");
            assert("8"@ =~= seq![decimal_digit(8)]);
        }
        "8"
    } else {
        proof {
            reveal_strlit("9");
            assert("9"@ =~= seq![decimal_digit(9)]);
        }
        "9"
    }
}

/// Renders `n` in decimal.
pub fn decimal_string(n: u64) -> (r: String)
    ensures
        r@ == decimal_of(n as nat),
    decreases n,
{
    if n < 10 {
        digit_str(n).to_owned()
    } else {
        let mut s = decimal_string(n / 10);
        s.append(digit_str(n % 10));
        proof {
            assert(s@ =~= decimal_of((n as nat) / 10).push(decimal_digit((n % 10) as int)));
        }
        s
    }
}

/// Joins a directory and an object name into one path.
pub fn join_path(dir: &str, name: &str) -> (r: String)
    ensures
        r@ == join_path_spec(dir@, name@),
{
    let n = dir.unicode_len();
    if n == 0 {
        let r = name.to_owned();
        proof {
            assert(r@ =~= join_path_spec(dir@, name@));
        }
        r
    } else if dir.get_char(n - 1) == '/' {
        let mut s = dir.to_owned();
        s.append(name);
        s
    } else {
        let mut s = dir.to_owned();
        s.append("/");
        s.append(name);
        proof {
            reveal_strlit("/");
            assert(s@ =~= dir@ + seq!['/'] + name@);
        }
        s
    }
}

/// Returns the path of the data object of `file_id` under `region_dir`.
pub fn sst_file_path(region_dir: &str, file_id: FileId) -> (r: String)
    ensures
        r@ == sst_file_path_spec(region_dir@, file_id),
{
    let mut name = decimal_string(file_id.as_u64());
    name.append(".parquet");
    join_path(region_dir, name.as_str())
}

/// Returns the path of the index object of `file_id` under `region_dir`.
pub fn index_file_path(region_dir: &str, file_id: FileId) -> (r: String)
    ensures
        r@ == index_file_path_spec(region_dir@, file_id),
{
    let mut name = decimal_string(file_id.as_u64());
    name.append(".puffin");
    join_path(region_dir, name.as_str())
}

/// A decimal representation has at least one digit, and at least two once
/// the value reaches ten.
pub proof fn lemma_decimal_of_len(n: nat)
    ensures
        decimal_of(n).len() >= 1,
        n >= 10 ==> decimal_of(n).len() >= 2,
    decreases n,
{
    if n >= 10 {
        lemma_decimal_of_len(n / 10);
    }
}

/// Distinct values have distinct decimal representations.
pub proof fn lemma_decimal_of_injective(a: nat, b: nat)
    requires
        decimal_of(a) == decimal_of(b),
    ensures
        a == b,
    decreases a,
{
    lemma_decimal_of_len(a);
    lemma_decimal_of_len(b);
    if a < 10 && b < 10 {
        assert(decimal_of(a)[0] == decimal_digit(a as int));
        assert(decimal_of(b)[0] == decimal_digit(b as int));
    } else if a >= 10 && b >= 10 {
        assert(decimal_of(a).last() == decimal_digit((a % 10) as int));
        assert(decimal_of(b).last() == decimal_digit((b % 10) as int));
        assert(a % 10 == b % 10);
        assert(decimal_of(a).drop_last() =~= decimal_of(a / 10));
        assert(decimal_of(b).drop_last() =~= decimal_of(b / 10));
        lemma_decimal_of_injective(a / 10, b / 10);
    } else {
        assert(decimal_of(a).len() == decimal_of(b).len());
        assert(false);
    }
}

proof fn lemma_prepend_cancel(p: Seq<char>, x: Seq<char>, y: Seq<char>)
    requires
        p + x == p + y,
    ensures
        x == y,
{
    assert((p + x).len() == p.len() + x.len());
    assert((p + y).len() == p.len() + y.len());
    assert(x.len() == y.len());
    assert forall|i: int| 0 <= i < x.len() implies x[i] == y[i] by {
        assert((p + x)[p.len() + i] == x[i]);
        assert((p + y)[p.len() + i] == y[i]);
    }
    assert(x =~= y);
}

proof fn lemma_append_cancel(x: Seq<char>, y: Seq<char>, s: Seq<char>)
    requires
        x + s == y + s,
        x.len() == y.len(),
    ensures
        x == y,
{
    assert forall|i: int| 0 <= i < x.len() implies x[i] == y[i] by {
        assert((x + s)[i] == x[i]);
        assert((y + s)[i] == y[i]);
    }
    assert(x =~= y);
}

/// Within one region directory, distinct file ids are given distinct data
/// paths: the id really is the address.
pub proof fn lemma_sst_paths_injective(region_dir: Seq<char>, a: FileId, b: FileId)
    requires
        sst_file_path_spec(region_dir, a) == sst_file_path_spec(region_dir, b),
    ensures
        a == b,
{
    lemma_prepend_cancel(
        dir_prefix(region_dir),
        sst_file_name_spec(a),
        sst_file_name_spec(b),
    );
    lemma_append_cancel(
        decimal_of(a.value as nat),
        decimal_of(b.value as nat),
        ".parquet"@,
    );
    lemma_decimal_of_injective(a.value as nat, b.value as nat);
}

/// Within one region directory, distinct file ids are given distinct index
/// paths.
pub proof fn lemma_index_paths_injective(region_dir: Seq<char>, a: FileId, b: FileId)
    requires
        index_file_path_spec(region_dir, a) == index_file_path_spec(region_dir, b),
    ensures
        a == b,
{
    lemma_prepend_cancel(
        dir_prefix(region_dir),
        index_file_name_spec(a),
        index_file_name_spec(b),
    );
    lemma_append_cancel(
        decimal_of(a.value as nat),
        decimal_of(b.value as nat),
        ".puffin"@,
    );
    lemma_decimal_of_injective(a.value as nat, b.value as nat);
}

/// A data path is never an index path: the two logical suffixes differ, so
/// the two objects of one file, and of any two files, never collide.
pub proof fn lemma_data_index_paths_distinct(region_dir: Seq<char>, a: FileId, b: FileId)
    ensures
        sst_file_path_spec(region_dir, a) != index_file_path_spec(region_dir, b),
{
    reveal_strlit(".parquet");
    reveal_strlit(".puffin");
    lemma_decimal_of_len(a.value as nat);
    lemma_decimal_of_len(b.value as nat);
    let sp = sst_file_path_spec(region_dir, a);
    let ip = index_file_path_spec(region_dir, b);
    assert(sp.last() == ".parquet"@.last());
    assert(ip.last() == ".puffin"@.last());
    assert(".parquet"@.last() == 't');
    assert(".puffin"@.last() == 'n');
    if sp == ip {
        assert(sp.last() == ip.last());
        assert(false);
    }
}

} // verus!
