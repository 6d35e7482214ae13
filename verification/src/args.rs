//! Command-line flags built from a map of flag names to values, and how
//! that map is shown.
use crate::keyed::KeyedList;
use crate::text::join_seq;
use crate::util::StringOrList;
use vstd::prelude::*;

verus! {

/// The entries of an argument map, as keys and lists of values.
pub open spec fn arg_entries(e: Seq<(String, StringOrList)>) -> Seq<(Seq<char>, Seq<Seq<char>>)> {
    e.map_values(|p: (String, StringOrList)| (p.0@, p.1@))
}

/// `--<key> <value>` for each value, in order.
pub open spec fn value_flags(key: Seq<char>, values: Seq<Seq<char>>) -> Seq<Seq<char>>
    decreases values.len(),
{
    if values.len() == 0 {
        Seq::empty()
    } else {
        value_flags(key, values.drop_last()) + seq!["--"@ + key, values.last()]
    }
}

/// The flags for all entries, in the order they were written: each key is given once per
/// value.
pub open spec fn flag_args(e: Seq<(Seq<char>, Seq<Seq<char>>)>) -> Seq<Seq<char>>
    decreases e.len(),
{
    if e.len() == 0 {
        Seq::empty()
    } else {
        flag_args(e.drop_last()) + value_flags(e.last().0, e.last().1)
    }
}

/// The number of values of all entries.
pub open spec fn value_count(e: Seq<(Seq<char>, Seq<Seq<char>>)>) -> nat
    decreases e.len(),
{
    if e.len() == 0 {
        0
    } else {
        value_count(e.drop_last()) + e.last().1.len()
    }
}

/// Each value of each entry gives one flag and one argument: the flags of
/// an entry given as a list repeat once per value.
pub proof fn lemma_flag_args_count(e: Seq<(Seq<char>, Seq<Seq<char>>)>)
    ensures
        flag_args(e).len() == 2 * value_count(e),
    decreases e.len(),
{
    if e.len() > 0 {
        lemma_flag_args_count(e.drop_last());
        lemma_value_flags_count(e.last().0, e.last().1);
    }
}

/// The flags of one entry: `--<key>` before each of its values, in order.
pub proof fn lemma_value_flags_count(key: Seq<char>, values: Seq<Seq<char>>)
    ensures
        value_flags(key, values).len() == 2 * values.len(),
        forall|i: int| 0 <= i < values.len() ==> #[trigger] value_flags(key, values)[2 * i] == "--"@ + key
            && value_flags(key, values)[2 * i + 1] == values[i],
    decreases values.len(),
{
    if values.len() > 0 {
        lemma_value_flags_count(key, values.drop_last());
        let prev = value_flags(key, values.drop_last());
        assert forall|i: int| 0 <= i < values.len() implies #[trigger] value_flags(key, values)[2 * i] == "--"@ + key
            && value_flags(key, values)[2 * i + 1] == values[i] by {
            if i < values.len() - 1 {
                assert(prev[2 * i] == "--"@ + key);
                assert(values.drop_last()[i] == values[i]);
            }
        }
    }
}

/// `<key>: <value>` for each value, joined by `, `.
pub open spec fn key_values_text(key: Seq<char>, values: Seq<Seq<char>>) -> Seq<char> {
    join_seq(values.map_values(|v: Seq<char>| key + ": "@ + v), ", "@)
}

/// The text of each entry, separated by `, `.
pub open spec fn args_body(e: Seq<(Seq<char>, Seq<Seq<char>>)>) -> Seq<char>
    decreases e.len(),
{
    if e.len() == 0 {
        Seq::empty()
    } else {
        args_body(e.drop_last()) + (if e.len() > 1 {
            ", "@
        } else {
            Seq::empty()
        }) + key_values_text(e.last().0, e.last().1)
    }
}

/// The flags for the entries of `args`.
pub fn build_flag_args(args: &KeyedList<StringOrList>) -> (r: Vec<String>)
    ensures
        r@.map_values(|s: String| s@) == flag_args(arg_entries(args.view())),
{
    let entries = args.entries();
    let ghost ev = arg_entries(entries@);
    let mut r: Vec<String> = Vec::new();
    let mut i: usize = 0;
    while i < entries.len()
        invariant
            i <= entries.len(),
            ev == arg_entries(entries@),
            r@.map_values(|s: String| s@) == flag_args(ev.take(i as int)),
        decreases entries.len() - i,
    {
        let key = &entries[i].0;
        let values = entries[i].1.values();
        let ghost vv = entries[i as int].1@;
        let ghost base = r@.map_values(|s: String| s@);
        let mut j: usize = 0;
        while j < values.len()
            invariant
                j <= values.len(),
                vv == values@.map_values(|s: String| s@),
                key@ == ev[i as int].0,
                r@.map_values(|s: String| s@) == base + value_flags(key@, vv.take(j as int)),
            decreases values.len() - j,
        {
            let mut flag = "--".to_owned();
            flag.append(key.as_str());
            let ghost before = r@;
            r.push(flag);
            r.push(values[j].clone());
            proof {
                assert(vv.take(j + 1).drop_last() =~= vv.take(j as int));
                assert(r@ =~= before.push(flag).push(values@[j as int]));
                assert(r@.map_values(|s: String| s@) =~= before.map_values(|s: String| s@) + seq![
                    "--"@ + key@,
                    vv[j as int],
                ]);
            }
            j = j + 1;
        }
        proof {
            assert(vv.take(values.len() as int) =~= vv);
            assert(ev.take(i + 1).drop_last() =~= ev.take(i as int));
            assert(ev[i as int].1 == vv);
        }
        i = i + 1;
    }
    assert(ev.take(entries.len() as int) =~= ev);
    r
}

/// The text of the entries of `args` (see `args_body`).
pub fn build_args_body(args: &KeyedList<StringOrList>) -> (r: String)
    ensures
        r@ == args_body(arg_entries(args.view())),
{
    let entries = args.entries();
    let ghost ev = arg_entries(entries@);
    let mut r = String::new();
    let mut i: usize = 0;
    while i < entries.len()
        invariant
            i <= entries.len(),
            ev == arg_entries(entries@),
            r@ == args_body(ev.take(i as int)),
        decreases entries.len() - i,
    {
        if i > 0 {
            r.append(", ");
        }
        let ghost mid = r@;
        let key = &entries[i].0;
        let values = entries[i].1.values();
        let ghost vv = entries[i as int].1@;
        let ghost items = vv.map_values(|v: Seq<char>| key@ + ": "@ + v);
        let mut j: usize = 0;
        while j < values.len()
            invariant
                j <= values.len(),
                vv == values@.map_values(|s: String| s@),
                items == vv.map_values(|v: Seq<char>| key@ + ": "@ + v),
                r@ == mid + join_seq(items.take(j as int), ", "@),
            decreases values.len() - j,
        {
            if j > 0 {
                r.append(", ");
            }
            r.append(key.as_str());
            r.append(": ");
            r.append(values[j].as_str());
            proof {
                let t = items.take(j + 1);
                assert(t.drop_last() =~= items.take(j as int));
                assert(t.last() == key@ + ": "@ + vv[j as int]);
                if j == 0 {
                    assert(join_seq(items.take(0), ", "@) == Seq::<char>::empty());
                    assert(join_seq(t, ", "@) == t[0]);
                }
                assert(r@ =~= mid + join_seq(t, ", "@));
            }
            j = j + 1;
        }
        proof {
            assert(items.take(values.len() as int) =~= items);
            assert(ev.take(i + 1).drop_last() =~= ev.take(i as int));
            assert(ev[i as int] == (key@, vv));
            assert(r@ =~= args_body(ev.take(i + 1)));
        }
        i = i + 1;
    }
    assert(ev.take(entries.len() as int) =~= ev);
    r
}

} // verus!
