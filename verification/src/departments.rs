//! A staff table of (name, department) entries, and a lookup of everyone
//! in one department.

use vstd::prelude::*;
use vstd::string::*;

verus! {

/// The names of the entries whose department is `dep`, in table order.
pub open spec fn members_of(t: Seq<(String, String)>, dep: Seq<char>) -> Seq<Seq<char>>
    decreases t.len(),
{
    if t.len() == 0 {
        Seq::empty()
    } else if t.last().1@ == dep {
        members_of(t.drop_last(), dep).push(t.last().0@)
    } else {
        members_of(t.drop_last(), dep)
    }
}

/// Everyone who works in the department called `dep_name`.
pub fn get_specific_department(table: &Vec<(String, String)>, dep_name: &str) -> (r: Vec<String>)
    ensures
        r.deep_view() == members_of(table@, dep_name@),
{
    let dep: String = dep_name.to_owned();
    let mut r: Vec<String> = Vec::new();
    let mut i: usize = 0;
    proof {
        assert(r.deep_view() =~= members_of(table@.take(0), dep_name@));
    }
    while i < table.len()
        invariant
            0 <= i <= table@.len(),
            dep@ == dep_name@,
            r.deep_view() == members_of(table@.take(i as int), dep_name@),
        decreases table@.len() - i,
    {
        let ghost old_dv = r.deep_view();
        proof {
            assert(table@.take(i as int + 1).drop_last() =~= table@.take(i as int));
            assert(table@.take(i as int + 1).last() == table@[i as int]);
        }
        let pair = &table[i];
        if pair.1 == dep {
            r.push(pair.0.clone());
            proof {
                assert(r.deep_view() =~= old_dv.push(table@[i as int].0@));
            }
        }
        i = i + 1;
    }
    proof {
        assert(table@.take(table@.len() as int) =~= table@);
    }
    r
}

} // verus!
