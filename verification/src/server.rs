//! Computations of the file server: path checks and the Fibonacci sanity
//! check.

use vstd::prelude::*;

use crate::middleware::SockAddrV4;
use crate::text::{chars_of, dot_dot, is_dot_dot, lemma_split_on_nonempty, lemma_split_on_step, split_on};

verus! {

/// The Fibonacci numbers.
pub open spec fn fib(n: nat) -> nat
    decreases n,
{
    if n == 0 {
        0
    } else if n == 1 {
        1
    } else {
        fib((n - 2) as nat) + fib((n - 1) as nat)
    }
}

/// The Fibonacci numbers never decrease.
pub proof fn lemma_fib_monotonic(i: nat, j: nat)
    requires
        i <= j,
    ensures
        fib(i) <= fib(j),
    decreases j - i,
{
    if j < 2 {
    } else if i == j {
    } else if i == j - 1 {
        reveal_with_fuel(fib, 2);
    } else {
        lemma_fib_monotonic(i, (j - 1) as nat);
        lemma_fib_monotonic(i, (j - 2) as nat);
    }
}

/// Computes the `fib_num`-th Fibonacci number (which must fit in a `u64`).
pub fn compute_fib(fib_num: u8) -> (res: u64)
    requires
        fib(fib_num as nat) <= u64::MAX,
    ensures
        res == fib(fib_num as nat),
{
    if fib_num == 0 {
        return 0;
    }
    if fib_num == 1 {
        return 1;
    }
    let mut sml: u64 = 0;
    let mut big: u64 = 1;
    let mut i: u8 = 2;
    while i <= fib_num
        invariant
            2 <= i <= fib_num as int + 1,
            fib(fib_num as nat) <= u64::MAX,
            sml == fib((i - 2) as nat),
            big == fib((i - 1) as nat),
        decreases fib_num as int + 1 - i,
    {
        proof {
            lemma_fib_monotonic(i as nat, fib_num as nat);
            assert(fib(i as nat) == fib((i - 2) as nat) + fib((i - 1) as nat));
        }
        let next = sml + big;
        sml = big;
        big = next;
        if i == fib_num {
            return big;
        }
        i = i + 1;
    }
    big
}

/// Whether a path holds a `..` segment, splitting on `/`.
pub open spec fn has_backdir(path: Seq<char>) -> bool {
    split_on(path, '/').contains(dot_dot())
}

/// Checks if a provided path contains prev-dir path segments `..`.
/// Paths are not resolved, as they might not exist yet.
///
/// This prevents out-of-dir accesses, such as when the path is `../../some_path`.
pub fn contains_backdir(path: &str) -> (res: bool)
    ensures
        res == has_backdir(path@),
{
    let cs = chars_of(path);
    let mut cur: Vec<char> = Vec::new();
    let mut found = false;
    let mut i: usize = 0;
    proof {
        assert(cs@.take(0) =~= Seq::<char>::empty());
    }
    while i < cs.len()
        invariant
            i <= cs@.len(),
            split_on(cs@.take(i as int), '/').len() >= 1,
            cur@ == split_on(cs@.take(i as int), '/').last(),
            found == split_on(cs@.take(i as int), '/').drop_last().contains(dot_dot()),
        decreases cs@.len() - i,
    {
        let ghost prev = split_on(cs@.take(i as int), '/');
        proof {
            lemma_split_on_step(cs@, i as int, '/');
        }
        if cs[i] == '/' {
            let dd = is_dot_dot(&cur);
            found = found || dd;
            cur = Vec::new();
            proof {
                let next = prev.push(Seq::<char>::empty());
                assert(next.drop_last() =~= prev);
                assert(prev =~= prev.drop_last().push(prev.last()));
                if dd {
                    assert(prev[prev.len() - 1] == dot_dot());
                }
                assert(cur@ =~= next.last());
            }
        } else {
            cur.push(cs[i]);
            proof {
                let next = prev.update(prev.len() - 1, prev.last().push(cs@[i as int]));
                assert(next.drop_last() =~= prev.drop_last());
            }
        }
        i = i + 1;
    }
    let dd = is_dot_dot(&cur);
    proof {
        assert(cs@.take(i as int) =~= path@);
        let all = split_on(path@, '/');
        assert(all =~= all.drop_last().push(all.last()));
        if dd {
            assert(all[all.len() - 1] == dot_dot());
        }
        if all.contains(dot_dot()) && !found {
            let j = choose|j: int| 0 <= j < all.len() && all[j] == dot_dot();
            if j < all.len() - 1 {
                assert(all.drop_last()[j] == dot_dot());
            }
        }
    }
    found || dd
}

/// `path` pushed onto `base` as `PathBuf::push` does on Unix: an absolute
/// `path` (one starting with `/`) replaces `base`; otherwise a `/` goes
/// between the two unless `base` is empty or already ends with one.
pub open spec fn joined_path(base: Seq<char>, path: Seq<char>) -> Seq<char> {
    if path.len() > 0 && path[0] == '/' {
        path
    } else if base.len() > 0 && base.last() != '/' {
        base + seq!['/'] + path
    } else {
        base + path
    }
}

/// Pushes `path` onto `base` (see `joined_path`).
pub fn join_path(base: &str, path: &str) -> (res: String)
    ensures
        res@ == joined_path(base@, path@),
{
    let pcs = chars_of(path);
    let bcs = chars_of(base);
    let mut out = String::new();
    if pcs.len() > 0 && pcs[0] == '/' {
        out.push_str(path);
        assert(out@ =~= path@);
        return out;
    }
    out.push_str(base);
    if bcs.len() > 0 && bcs[bcs.len() - 1] != '/' {
        out.push('/');
    }
    out.push_str(path);
    out
}

/// Whether `path` is absolute (starts with `/`).
pub open spec fn is_absolute(path: Seq<char>) -> bool {
    path.len() > 0 && path[0] == '/'
}

/// Resolves the relative `path` against the served directory `base`: the
/// joined path, or `None` when `path` is absolute (it would leave the
/// served directory) or the joined path holds a back-directory segment `..`.
pub fn resolve_path(base: &str, path: &str) -> (res: Option<String>)
    ensures
        ({
            let full = joined_path(base@, path@);
            match res {
                Some(p) => !is_absolute(path@) && !has_backdir(full) && p@ == full,
                None => is_absolute(path@) || has_backdir(full),
            }
        }),
{
    let pcs = chars_of(path);
    if pcs.len() > 0 && pcs[0] == '/' {
        return None;
    }
    let full = join_path(base, path);
    if contains_backdir(full.as_str()) {
        None
    } else {
        Some(full)
    }
}

/// The return addresses recorded for `path` (the last record of it wins).
pub open spec fn registry_lookup(es: Seq<(Seq<char>, Seq<SockAddrV4>)>, path: Seq<char>) -> Seq<SockAddrV4>
    decreases es.len(),
{
    if es.len() == 0 {
        Seq::empty()
    } else if es.last().0 == path {
        es.last().1
    } else {
        registry_lookup(es.drop_last(), path)
    }
}

/// The contents of each (path, addresses) record.
pub open spec fn record_views(v: Seq<(String, Vec<SockAddrV4>)>) -> Seq<(Seq<char>, Seq<SockAddrV4>)> {
    v.map_values(|r: (String, Vec<SockAddrV4>)| (r.0@, r.1@))
}

/// A record of a path that is held once gives its addresses.
proof fn lemma_registry_lookup_at(es: Seq<(Seq<char>, Seq<SockAddrV4>)>, j: int)
    requires
        0 <= j < es.len(),
        forall|i: int| 0 <= i < es.len() && i != j ==> es[i].0 != es[j].0,
    ensures
        registry_lookup(es, es[j].0) == es[j].1,
    decreases es.len(),
{
    if j < es.len() - 1 {
        lemma_registry_lookup_at(es.drop_last(), j);
    }
}

/// A path held by no record has no addresses.
proof fn lemma_registry_lookup_absent(es: Seq<(Seq<char>, Seq<SockAddrV4>)>, p: Seq<char>)
    requires
        forall|i: int| 0 <= i < es.len() ==> es[i].0 != p,
    ensures
        registry_lookup(es, p) == Seq::<SockAddrV4>::empty(),
    decreases es.len(),
{
    if es.len() > 0 {
        lemma_registry_lookup_absent(es.drop_last(), p);
    }
}

/// Return addresses registered to be told of updates to files; each path
/// is held once.
#[derive(Debug)]
pub struct FileUpdateRegistry {
    entries: Vec<(String, Vec<SockAddrV4>)>,
}

impl FileUpdateRegistry {
    /// The addresses registered for `path`, oldest first.
    pub closed spec fn targets(&self, path: Seq<char>) -> Seq<SockAddrV4> {
        registry_lookup(record_views(self.entries@), path)
    }

    /// Well-formedness: each path is held once.
    pub closed spec fn wf(&self) -> bool {
        forall|i: int, j: int|
            0 <= i < j < self.entries@.len() ==> #[trigger] self.entries@[i].0@ != #[trigger] self.entries@[j].0@
    }

    /// An empty registry.
    pub fn new() -> (res: Self)
        ensures
            res.wf(),
            forall|p: Seq<char>| res.targets(p) == Seq::<SockAddrV4>::empty(),
    {
        let res = Self { entries: Vec::new() };
        assert forall|p: Seq<char>| res.targets(p) == Seq::<SockAddrV4>::empty() by {
            assert(record_views(res.entries@).len() == 0);
        }
        res
    }

    /// Index of the record of `path`, if there is one.
    fn find(&self, path: &str) -> (res: Option<usize>)
        requires
            self.wf(),
        ensures
            res matches Some(j) ==> j < self.entries@.len() && self.entries@[j as int].0@ == path@,
            res is None ==> forall|i: int| 0 <= i < self.entries@.len() ==> self.entries@[i].0@ != path@,
    {
        let wanted = path.to_owned();
        let mut j: usize = 0;
        while j < self.entries.len()
            invariant
                j <= self.entries@.len(),
                wanted@ == path@,
                forall|i: int| 0 <= i < j ==> self.entries@[i].0@ != path@,
            decreases self.entries@.len() - j,
        {
            if self.entries[j].0 == wanted {
                return Some(j);
            }
            j = j + 1;
        }
        None
    }

    /// Registers `addr` to be told of updates to `path`.
    pub fn register(&mut self, path: &str, addr: SockAddrV4)
        requires
            old(self).wf(),
        ensures
            final(self).wf(),
            final(self).targets(path@) == old(self).targets(path@).push(addr),
            forall|p: Seq<char>| p != path@ ==> #[trigger] final(self).targets(p) == old(self).targets(p),
    {
        let ghost old_es = record_views(self.entries@);
        match self.find(path) {
            Some(j) => {
                let mut addrs: Vec<SockAddrV4> = Vec::new();
                let mut k: usize = 0;
                while k < self.entries[j].1.len()
                    invariant
                        j < self.entries@.len(),
                        k <= self.entries@[j as int].1@.len(),
                        addrs@ == self.entries@[j as int].1@.take(k as int),
                    decreases self.entries@[j as int].1@.len() - k,
                {
                    addrs.push(self.entries[j].1[k]);
                    k = k + 1;
                    proof {
                        assert(addrs@ =~= self.entries@[j as int].1@.take(k as int));
                    }
                }
                proof {
                    assert(addrs@ =~= self.entries@[j as int].1@);
                }
                addrs.push(addr);
                let name = self.entries[j].0.clone();
                let ghost before = self.entries@;
                self.entries.set(j, (name, addrs));
                proof {
                    let new_es = record_views(self.entries@);
                    assert(new_es =~= old_es.update(j as int, (path@, old_es[j as int].1.push(addr))));
                    assert forall|a: int, b: int|
                        0 <= a < b < self.entries@.len() implies #[trigger] self.entries@[a].0@
                        != #[trigger] self.entries@[b].0@ by {
                        assert(before[a].0@ != before[b].0@);
                    }
                    assert forall|i: int| 0 <= i < old_es.len() && i != j implies old_es[i].0
                        != old_es[j as int].0 by {
                        if i < j {
                            assert(before[i].0@ != before[j as int].0@);
                        } else {
                            assert(before[j as int].0@ != before[i].0@);
                        }
                    }
                    lemma_registry_lookup_at(old_es, j as int);
                    lemma_registry_lookup_at(new_es, j as int);
                    assert forall|p: Seq<char>| p != path@ implies #[trigger] registry_lookup(new_es, p)
                        == registry_lookup(old_es, p) by {
                        lemma_registry_update_other(old_es, j as int, old_es[j as int].1.push(addr), p);
                    }
                }
            },
            None => {
                let mut addrs: Vec<SockAddrV4> = Vec::new();
                addrs.push(addr);
                let ghost before = self.entries@;
                self.entries.push((path.to_owned(), addrs));
                proof {
                    let new_es = record_views(self.entries@);
                    assert(new_es =~= old_es.push((path@, seq![addr])));
                    assert(new_es.drop_last() =~= old_es);
                    lemma_registry_lookup_absent(old_es, path@);
                    assert(Seq::<SockAddrV4>::empty().push(addr) =~= seq![addr]);
                    assert forall|a: int, b: int|
                        0 <= a < b < self.entries@.len() implies #[trigger] self.entries@[a].0@
                        != #[trigger] self.entries@[b].0@ by {
                        if b < before.len() {
                            assert(before[a].0@ != before[b].0@);
                        } else {
                            assert(old_es[a].0 != path@);
                        }
                    }
                }
            },
        }
    }

    /// Takes out the addresses registered for `path`: each is told of an
    /// update once.
    pub fn take(&mut self, path: &str) -> (res: Vec<SockAddrV4>)
        requires
            old(self).wf(),
        ensures
            final(self).wf(),
            res@ == old(self).targets(path@),
            final(self).targets(path@) == Seq::<SockAddrV4>::empty(),
            forall|p: Seq<char>| p != path@ ==> #[trigger] final(self).targets(p) == old(self).targets(p),
    {
        let ghost old_es = record_views(self.entries@);
        match self.find(path) {
            Some(j) => {
                let ghost before = self.entries@;
                let rec = self.entries.remove(j);
                proof {
                    let new_es = record_views(self.entries@);
                    assert(new_es =~= old_es.remove(j as int));
                    assert forall|i: int| 0 <= i < old_es.len() && i != j implies old_es[i].0
                        != old_es[j as int].0 by {
                        if i < j {
                            assert(before[i].0@ != before[j as int].0@);
                        } else {
                            assert(before[j as int].0@ != before[i].0@);
                        }
                    }
                    lemma_registry_lookup_at(old_es, j as int);
                    assert forall|i: int| 0 <= i < new_es.len() implies new_es[i].0 != path@ by {
                        if i < j {
                            assert(old_es[i].0 != old_es[j as int].0);
                        } else {
                            assert(old_es[i + 1].0 != old_es[j as int].0);
                        }
                    }
                    lemma_registry_lookup_absent(new_es, path@);
                    assert forall|p: Seq<char>| p != path@ implies #[trigger] registry_lookup(new_es, p)
                        == registry_lookup(old_es, p) by {
                        lemma_registry_remove_other(old_es, j as int, p);
                    }
                    assert forall|a: int, b: int|
                        0 <= a < b < self.entries@.len() implies #[trigger] self.entries@[a].0@
                        != #[trigger] self.entries@[b].0@ by {
                        if b < j {
                            assert(before[a].0@ != before[b].0@);
                        } else if a < j {
                            assert(before[a].0@ != before[b + 1].0@);
                        } else {
                            assert(before[a + 1].0@ != before[b + 1].0@);
                        }
                    }
                }
                rec.1
            },
            None => {
                proof {
                    lemma_registry_lookup_absent(old_es, path@);
                }
                Vec::new()
            },
        }
    }
}

/// Changing the addresses of another path's record leaves a lookup as it
/// was.
proof fn lemma_registry_update_other(es: Seq<(Seq<char>, Seq<SockAddrV4>)>, j: int, v: Seq<SockAddrV4>, p: Seq<char>)
    requires
        0 <= j < es.len(),
        es[j].0 != p,
    ensures
        registry_lookup(es.update(j, (es[j].0, v)), p) == registry_lookup(es, p),
    decreases es.len(),
{
    let es2 = es.update(j, (es[j].0, v));
    if j == es.len() - 1 {
        assert(es2.drop_last() =~= es.drop_last());
    } else {
        lemma_registry_update_other(es.drop_last(), j, v, p);
        assert(es2.drop_last() =~= es.drop_last().update(j, (es[j].0, v)));
    }
}

/// Removing another path's record leaves a lookup as it was.
proof fn lemma_registry_remove_other(es: Seq<(Seq<char>, Seq<SockAddrV4>)>, j: int, p: Seq<char>)
    requires
        0 <= j < es.len(),
        es[j].0 != p,
    ensures
        registry_lookup(es.remove(j), p) == registry_lookup(es, p),
    decreases es.len(),
{
    if j == es.len() - 1 {
        assert(es.remove(j) =~= es.drop_last());
    } else {
        lemma_registry_remove_other(es.drop_last(), j, p);
        assert(es.remove(j).drop_last() =~= es.drop_last().remove(j));
        assert(es.remove(j).last() == es.last());
    }
}

/// The number of targets an update was sent to, as a non-zero `u8` (the
/// count taken modulo 256), or `None` for zero.
pub fn triggered_count(n: usize) -> (res: Option<u8>)
    ensures
        res == if (n as u8) == 0 {
            None
        } else {
            Some(n as u8)
        },
{
    let c = n as u8;
    if c == 0 {
        None
    } else {
        Some(c)
    }
}

} // verus!
