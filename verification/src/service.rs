//! Pure pieces of the service installer: the strings that the launch-agent
//! management needs. The file operations and the talk with the service
//! manager happen outside the library.

use vstd::prelude::*;
use vstd::string::StringExecFns;

verus! {

/// The concatenation of `parts` with `sep` between consecutive parts.
pub open spec fn spec_join(parts: Seq<Seq<char>>, sep: Seq<char>) -> Seq<char>
    decreases parts.len(),
{
    if parts.len() == 0 {
        Seq::empty()
    } else if parts.len() == 1 {
        parts[0]
    } else {
        spec_join(parts.drop_last(), sep) + sep + parts.last()
    }
}

/// Concatenates `parts`, writing `sep` between consecutive parts (also
/// around empty ones).
pub fn join(parts: &Vec<String>, sep: &str) -> (r: String)
    ensures
        r@ == spec_join(parts@.map_values(|s: String| s@), sep@),
{
    let ghost ps: Seq<Seq<char>> = parts@.map_values(|s: String| s@);
    let mut res = String::new();
    let mut i: usize = 0;
    while i < parts.len()
        invariant
            i <= parts.len(),
            ps == parts@.map_values(|s: String| s@),
            res@ == spec_join(ps.take(i as int), sep@),
        decreases parts.len() - i,
    {
        if i != 0 {
            res.append(sep);
        }
        res.append(parts[i].as_str());
        proof {
            assert(ps.take(i as int + 1).drop_last() =~= ps.take(i as int));
            assert(ps.take(i as int + 1).last() == ps[i as int]);
            if i == 0 {
                assert(res@ =~= ps.take(1)[0]);
            }
        }
        i += 1;
    }
    proof {
        assert(ps.take(parts@.len() as int) =~= ps);
    }
    res
}

/// The filesystem path of the launch agent's property list for the service
/// `name`, under the home directory `home`.
pub fn agent_plist_path(home: &str, name: &str) -> (r: String)
    ensures
        r@ == home@ + "/Library/LaunchAgents/"@ + name@ + ".plist"@,
{
    let mut r = home.to_owned();
    r.append("/Library/LaunchAgents/");
    r.append(name);
    r.append(".plist");
    r
}

} // verus!
