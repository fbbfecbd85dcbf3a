//! The backend shared-library search path.
//!
//! An agent is configured with a comma-separated list of backend names and a
//! library directory.  At start time the list becomes the value of the
//! `VACCEL_BACKENDS` environment variable: one `libvaccel-<name>.so` entry
//! per backend, prefixed by the directory, joined by `:` with no trailing
//! separator.

use vstd::prelude::*;

verus! {

/// The comma-separated list `s`, split into its entries: the empty sequence
/// holds one empty entry, and every comma ends the current entry and starts
/// a new one.
pub open spec fn split_commas(s: Seq<char>) -> Seq<Seq<char>>
    decreases s.len(),
{
    if s.len() == 0 {
        seq![Seq::<char>::empty()]
    } else if s.last() == ',' {
        split_commas(s.drop_last()).push(Seq::<char>::empty())
    } else {
        let prev = split_commas(s.drop_last());
        prev.update(prev.len() - 1, prev.last().push(s.last()))
    }
}

/// Splitting never yields an empty list of entries.
pub proof fn lemma_split_commas_nonempty(s: Seq<char>)
    ensures
        split_commas(s).len() >= 1,
    decreases s.len(),
{
    if s.len() > 0 {
        lemma_split_commas_nonempty(s.drop_last());
    }
}

/// The shared-library entry for backend `b` under library directory `lib`.
pub open spec fn backend_entry(lib: Seq<char>, b: Seq<char>) -> Seq<char> {
    lib + "libvaccel-"@ + b + ".so"@
}

/// The search path for the backends `bs` under library directory `lib`:
/// their entries in input order, joined by `:`, with no trailing separator.
pub open spec fn search_path(lib: Seq<char>, bs: Seq<Seq<char>>) -> Seq<char>
    decreases bs.len(),
{
    if bs.len() == 0 {
        Seq::<char>::empty()
    } else if bs.len() == 1 {
        backend_entry(lib, bs[0])
    } else {
        search_path(lib, bs.drop_last()) + ":"@ + backend_entry(lib, bs.last())
    }
}

/// The views of a list of owned strings.
pub open spec fn views_of(parts: Seq<String>) -> Seq<Seq<char>> {
    parts.map_values(|p: String| p@)
}

/// Splits a comma-separated configuration string into its entries; the
/// executable counterpart of `split_commas`.
pub fn split_commas_exec(s: &str) -> (parts: Vec<String>)
    ensures
        views_of(parts@) == split_commas(s@),
{
    let len: usize = s.unicode_len();
    let mut parts: Vec<String> = Vec::new();
    let mut start: usize = 0;
    let mut i: usize = 0;
    proof {
        assert(s@.subrange(0, 0) =~= Seq::<char>::empty());
        assert(views_of(parts@).push(Seq::<char>::empty()) =~~= seq![Seq::<char>::empty()]);
    }
    while i < len
        invariant
            start <= i <= len,
            len == s@.len(),
            split_commas(s@.subrange(0, i as int)) == views_of(parts@).push(
                s@.subrange(start as int, i as int),
            ),
        decreases len - i,
    {
        let ghost prefix = s@.subrange(0, i as int);
        let ghost cur = s@.subrange(start as int, i as int);
        let c = s.get_char(i);
        proof {
            assert(s@.subrange(0, i as int + 1).drop_last() =~= prefix);
            assert(s@.subrange(0, i as int + 1).last() == s@[i as int]);
        }
        if c == ',' {
            let piece = s.substring_char(start, i).to_owned();
            proof {
                assert(views_of(parts@.push(piece)) =~~= views_of(parts@).push(cur));
                assert(split_commas(s@.subrange(0, i as int + 1)) =~~= views_of(
                    parts@.push(piece),
                ).push(s@.subrange(i as int + 1, i as int + 1)));
            }
            parts.push(piece);
            start = i + 1;
        } else {
            proof {
                let whole = views_of(parts@).push(cur);
                assert(whole.last() == cur);
                assert(cur.push(s@[i as int]) =~= s@.subrange(start as int, i as int + 1));
                assert(whole.update(whole.len() - 1, cur.push(s@[i as int])) =~~= views_of(
                    parts@,
                ).push(s@.subrange(start as int, i as int + 1)));
            }
        }
        i += 1;
    }
    let piece = s.substring_char(start, len).to_owned();
    proof {
        assert(s@.subrange(0, len as int) =~= s@);
        assert(views_of(parts@.push(piece)) =~~= views_of(parts@).push(
            s@.subrange(start as int, len as int),
        ));
    }
    parts.push(piece);
    parts
}

/// Builds the backend search path exactly as the agent receives it: the
/// entry of each backend of the comma-separated list `backends`, under the
/// library directory `lib`, in input order, joined by `:`, with no trailing
/// separator.
pub fn build_backends_path(lib: &str, backends: &str) -> (r: String)
    ensures
        r@ == search_path(lib@, split_commas(backends@)),
{
    let parts = split_commas_exec(backends);
    let mut out = String::new();
    let mut i: usize = 0;
    while i < parts.len()
        invariant
            i <= parts@.len(),
            views_of(parts@) == split_commas(backends@),
            out@ == search_path(lib@, views_of(parts@).take(i as int)),
        decreases parts@.len() - i,
    {
        let ghost vs = views_of(parts@);
        let ghost before = out@;
        if i > 0 {
            out.append(":");
        }
        out.append(lib);
        out.append("libvaccel-");
        out.append(parts[i].as_str());
        out.append(".so");
        proof {
            assert(vs.take(i as int + 1).drop_last() =~~= vs.take(i as int));
            assert(vs[i as int] == parts@[i as int]@);
            if i == 0 {
                assert(out@ =~= backend_entry(lib@, vs[0]));
                assert(vs.take(1).len() == 1);
                assert(vs.take(1)[0] == vs[0]);
            } else {
                assert(out@ =~= before + ":"@ + backend_entry(lib@, vs[i as int]));
                assert(vs.take(i as int + 1).last() == vs[i as int]);
            }
            assert(out@ == search_path(lib@, vs.take(i as int + 1)));
        }
        i += 1;
    }
    proof {
        lemma_split_commas_nonempty(backends@);
        assert(views_of(parts@).take(parts@.len() as int) =~~= views_of(parts@));
    }
    out
}

/// The backend names `bs`, joined into one comma-separated configuration
/// string.
pub open spec fn join_commas(bs: Seq<Seq<char>>) -> Seq<char>
    decreases bs.len(),
{
    if bs.len() == 0 {
        Seq::<char>::empty()
    } else if bs.len() == 1 {
        bs[0]
    } else {
        join_commas(bs.drop_last()) + ","@ + bs.last()
    }
}

/// Splitting a comma-free sequence yields that sequence as the one entry.
proof fn lemma_split_commafree(b: Seq<char>)
    requires
        !b.contains(','),
    ensures
        split_commas(b) == seq![b],
    decreases b.len(),
{
    if b.len() == 0 {
        assert(split_commas(b) =~~= seq![b]);
    } else {
        assert(b[b.len() - 1] != ',');
        assert(forall|k: int| 0 <= k < b.len() - 1 ==> b.drop_last()[k] == b[k]);
        lemma_split_commafree(b.drop_last());
        assert(b.drop_last().push(b.last()) =~= b);
        assert(split_commas(b) =~~= seq![b]);
    }
}

/// Appending a comma extends the split with one fresh empty entry.
proof fn lemma_split_push_comma(s: Seq<char>)
    ensures
        split_commas(s.push(',')) == split_commas(s).push(Seq::<char>::empty()),
{
    assert(s.push(',').drop_last() =~= s);
    assert(s.push(',').last() == ',');
}

/// Appending a comma-free tail extends the last entry of the split by that
/// tail.
proof fn lemma_split_append_commafree(s: Seq<char>, t: Seq<char>)
    requires
        !t.contains(','),
    ensures
        split_commas(s + t) == split_commas(s).update(
            split_commas(s).len() - 1,
            split_commas(s).last() + t,
        ),
    decreases t.len(),
{
    lemma_split_commas_nonempty(s);
    if t.len() == 0 {
        assert(s + t =~= s);
        assert(split_commas(s).last() + t =~= split_commas(s).last());
        assert(split_commas(s).update(
            split_commas(s).len() - 1,
            split_commas(s).last() + t,
        ) =~~= split_commas(s));
    } else {
        assert(t[t.len() - 1] != ',');
        assert(forall|k: int| 0 <= k < t.len() - 1 ==> t.drop_last()[k] == t[k]);
        lemma_split_append_commafree(s, t.drop_last());
        assert((s + t).drop_last() =~= s + t.drop_last());
        assert((s + t).last() == t.last());
        let prev = split_commas(s + t.drop_last());
        assert(prev.last() == split_commas(s).last() + t.drop_last());
        assert((split_commas(s).last() + t.drop_last()).push(t.last()) =~= split_commas(s).last()
            + t);
        assert(split_commas(s + t) =~~= split_commas(s).update(
            split_commas(s).len() - 1,
            split_commas(s).last() + t,
        ));
    }
}

/// Law: splitting the comma-joined form of a list of comma-free backend
/// names gives back exactly that list, so the search path built from such a
/// configuration string is the entry of each name, in input order, joined by
/// `:`, with no trailing separator.
pub proof fn lemma_search_path_of_join(lib: Seq<char>, bs: Seq<Seq<char>>)
    requires
        bs.len() >= 1,
        forall|k: int| 0 <= k < bs.len() ==> !(#[trigger] bs[k]).contains(','),
    ensures
        split_commas(join_commas(bs)) == bs,
        search_path(lib, split_commas(join_commas(bs))) == search_path(lib, bs),
    decreases bs.len(),
{
    reveal_strlit(",");
    if bs.len() == 1 {
        lemma_split_commafree(bs[0]);
        assert(seq![bs[0]] =~~= bs);
    } else {
        let dl = bs.drop_last();
        assert(forall|k: int| 0 <= k < dl.len() ==> dl[k] == bs[k]);
        lemma_search_path_of_join(lib, dl);
        let joined = join_commas(dl);
        assert(joined + ","@ =~= joined.push(','));
        lemma_split_push_comma(joined);
        lemma_split_append_commafree(joined + ","@, bs.last());
        let mid = split_commas(joined + ","@);
        assert(mid =~~= dl.push(Seq::<char>::empty()));
        assert(mid.last() == Seq::<char>::empty());
        assert(mid.last() + bs.last() =~= bs.last());
        assert(join_commas(bs) == (joined + ","@) + bs.last());
        assert(split_commas(join_commas(bs)) =~~= bs);
    }
}

} // verus!
