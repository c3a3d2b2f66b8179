//! Which files of the user-defined configuration folder are configuration
//! files.

use vstd::prelude::*;

verus! {

/// Position of the last '.' in `name`, or -1 when it holds none.
pub open spec fn last_dot(name: Seq<char>) -> int
    decreases name.len(),
{
    if name.len() == 0 {
        -1
    } else if name.last() == '.' {
        name.len() - 1
    } else {
        last_dot(name.drop_last())
    }
}

/// The extension of a file named `name`, as the standard library defines it
/// (`std::path::Path::extension`): none for "..", none when the name holds no
/// '.' or its only '.' is its first character, and otherwise what follows the
/// last '.'.
pub open spec fn file_extension(name: Seq<char>) -> Option<Seq<char>> {
    if name == seq!['.', '.'] || last_dot(name) <= 0 {
        None
    } else {
        Some(name.skip(last_dot(name) + 1))
    }
}

/// The extension that configuration files have.
pub open spec fn config_extension() -> Seq<char> {
    seq!['y', 'm', 'l']
}

pub(crate) proof fn lemma_last_dot_is_dot(name: Seq<char>)
    ensures
        -1 <= last_dot(name) < name.len(),
        last_dot(name) >= 0 ==> name[last_dot(name)] == '.',
        forall|j: int| last_dot(name) < j < name.len() ==> name[j] != '.',
    decreases name.len(),
{
    if name.len() > 0 && name.last() != '.' {
        lemma_last_dot_is_dot(name.drop_last());
        assert forall|j: int| last_dot(name) < j < name.len() implies name[j] != '.' by {
            if j < name.len() - 1 {
                assert(name[j] == name.drop_last()[j]);
            }
        }
    }
}

/// Whether a file named `file_name` in the folder of user-defined
/// configurations is a configuration file: whether its extension is "yml".
pub fn is_config_file_name(file_name: &str) -> (r: bool)
    ensures
        r == (file_extension(file_name@) == Some(config_extension())),
        r == (file_name@.len() >= 5 && file_name@.subrange(
            file_name@.len() - 4,
            file_name@.len() as int,
        ) == seq!['.', 'y', 'm', 'l']),
{
    let ghost name = file_name@;
    proof {
        lemma_last_dot_is_dot(name);
    }
    let n = file_name.unicode_len();
    if n < 5 {
        proof {
            if file_extension(name) == Some(config_extension()) {
                assert(name.skip(last_dot(name) + 1).len() == 3);
            }
        }
        return false;
    }
    let r = file_name.get_char(n - 4) == '.' && file_name.get_char(n - 3) == 'y'
        && file_name.get_char(n - 2) == 'm' && file_name.get_char(n - 1) == 'l';
    proof {
        let k = n - 4;
        if r {
            assert(last_dot(name) == k) by {
                reveal_with_fuel(last_dot, 5);
                assert(name.drop_last().last() == 'm');
                assert(name.drop_last().drop_last().last() == 'y');
                assert(name.drop_last().drop_last().drop_last().last() == '.');
            }
            assert(name.skip(k + 1) =~= config_extension());
            assert(name.subrange(k as int, n as int) =~= seq!['.', 'y', 'm', 'l']);
        }
        if name.subrange(k as int, n as int) == seq!['.', 'y', 'm', 'l'] {
            assert(name.subrange(k as int, n as int)[0] == name[k as int]);
            assert(name.subrange(k as int, n as int)[1] == name[k + 1]);
            assert(name.subrange(k as int, n as int)[2] == name[k + 2]);
            assert(name.subrange(k as int, n as int)[3] == name[k + 3]);
        }
        if file_extension(name) == Some(config_extension()) {
            let d = last_dot(name);
            assert(name.skip(d + 1).len() == 3);
            assert(d == k);
            assert(name.skip(d + 1)[0] == name[k + 1]);
            assert(name.skip(d + 1)[1] == name[k + 2]);
            assert(name.skip(d + 1)[2] == name[k + 3]);
        }
    }
    r
}

} // verus!
