//! The registry of filesystems by share name, and the builder the
//! embedding application uses to configure a server.

use super::traits::Filesystem;
use vstd::map::*;
use vstd::prelude::*;

verus! {

/// The filesystems a server exports, keyed by share name (aname). The
/// first entry with a given name wins a lookup, and inserting an
/// existing name replaces its filesystem in place.
pub struct FilesystemMap<FilesystemT> {
    entries: Vec<(String, FilesystemT)>,
}

/// The filesystem registered under `name`, scanning entries in order.
pub open spec fn spec_lookup<FilesystemT>(
    entries: Seq<(String, FilesystemT)>,
    name: Seq<char>,
) -> Option<FilesystemT>
    decreases entries.len(),
{
    if entries.len() == 0 {
        None
    } else if entries[0].0@ == name {
        Some(entries[0].1)
    } else {
        spec_lookup(entries.drop_first(), name)
    }
}

proof fn lemma_lookup_push<FilesystemT>(
    entries: Seq<(String, FilesystemT)>,
    p: (String, FilesystemT),
    name: Seq<char>,
)
    ensures
        spec_lookup(entries.push(p), name) == (if spec_lookup(entries, name) is Some {
            spec_lookup(entries, name)
        } else if p.0@ == name {
            Some(p.1)
        } else {
            None
        }),
    decreases entries.len(),
{
    if entries.len() == 0 {
        assert(entries.push(p) =~= seq![p]);
        assert(spec_lookup(seq![p], name) == (if seq![p][0].0@ == name {
            Some(seq![p][0].1)
        } else {
            spec_lookup(seq![p].drop_first(), name)
        }));
        assert(seq![p].drop_first() =~= Seq::<(String, FilesystemT)>::empty());
        assert(spec_lookup(Seq::<(String, FilesystemT)>::empty(), name) is None);
        assert(spec_lookup(entries, name) is None);
    } else {
        assert(spec_lookup(entries.push(p), name) == (if entries.push(p)[0].0@ == name {
            Some(entries.push(p)[0].1)
        } else {
            spec_lookup(entries.push(p).drop_first(), name)
        }));
        assert(entries.push(p).drop_first() =~= entries.drop_first().push(p));
        assert(entries.push(p)[0] == entries[0]);
        lemma_lookup_push(entries.drop_first(), p, name);
        assert(spec_lookup(entries, name) == (if entries[0].0@ == name {
            Some(entries[0].1)
        } else {
            spec_lookup(entries.drop_first(), name)
        }));
    }
}

proof fn lemma_lookup_update<FilesystemT>(
    entries: Seq<(String, FilesystemT)>,
    i: int,
    p: (String, FilesystemT),
    name: Seq<char>,
)
    requires
        0 <= i < entries.len(),
        p.0@ == entries[i].0@,
        forall|j: int| 0 <= j < i ==> entries[j].0@ != entries[i].0@,
    ensures
        entries[i].0@ == name ==> spec_lookup(entries.update(i, p), name) == Some(p.1),
        entries[i].0@ != name ==> spec_lookup(entries.update(i, p), name) == spec_lookup(
            entries,
            name,
        ),
    decreases entries.len(),
{
    if i == 0 {
        assert(entries.update(0, p)[0] == p);
        if entries[0].0@ != name {
            assert(entries.update(0, p).drop_first() =~= entries.drop_first());
        }
    } else {
        assert(entries.update(i, p)[0] == entries[0]);
        assert(entries.update(i, p).drop_first() =~= entries.drop_first().update(i - 1, p));
        assert(forall|j: int|
            0 <= j < i - 1 ==> entries.drop_first()[j] == entries[j + 1]);
        lemma_lookup_update(entries.drop_first(), i - 1, p, name);
    }
}

impl<FilesystemT> View for FilesystemMap<FilesystemT> {
    type V = Map<Seq<char>, FilesystemT>;

    closed spec fn view(&self) -> Map<Seq<char>, FilesystemT> {
        Map::new(
            |k: Seq<char>| spec_lookup(self.entries@, k) is Some,
            |k: Seq<char>| spec_lookup(self.entries@, k)->Some_0,
        )
    }
}

impl<FilesystemT> FilesystemMap<FilesystemT> {
    /// An empty registry.
    pub fn new() -> (r: Self)
        ensures
            r@ == Map::<Seq<char>, FilesystemT>::empty(),
    {
        let r = Self { entries: Vec::new() };
        proof {
            assert(r@ =~~= Map::<Seq<char>, FilesystemT>::empty());
        }
        r
    }

    /// Register `fs` under `name`, replacing any filesystem already
    /// registered under it.
    #[verifier::loop_isolation(false)]
    pub fn insert(&mut self, name: &str, fs: FilesystemT)
        ensures
            final(self)@ == old(self)@.insert(name@, fs),
    {
        let ghost orig = self.entries@;
        let ghost v0 = self@;
        let owned = name.to_owned();
        let n = self.entries.len();
        let mut i: usize = 0;
        while i < n
            invariant
                i <= n == self.entries@.len(),
                owned@ == name@,
                self.entries@ == orig,
                forall|j: int| 0 <= j < i ==> self.entries@[j].0@ != name@,
            decreases n - i,
        {
            let hit = self.entries[i].0.eq(&owned);
            if hit {
                self.entries[i] = (owned, fs);
                proof {
                    assert(self.entries@ == orig.update(i as int, (owned, fs))) by {
                        assert(self.entries@ =~= orig.update(i as int, (owned, fs)));
                    }
                    assert_maps_equal!(self@, v0.insert(name@, fs), k => {
                        lemma_lookup_update(orig, i as int, (owned, fs), k);
                    });
                }
                return ;
            }
            i = i + 1;
        }
        self.entries.push((owned, fs));
        proof {
            assert_maps_equal!(self@, v0.insert(name@, fs), k => {
                lemma_lookup_push(orig, (owned, fs), k);
                lemma_lookup_none(orig, name@);
            });
        }
    }

    /// Look up the filesystem registered under `name`.
    pub fn get(&self, name: &String) -> (r: Option<&FilesystemT>)
        ensures
            match r {
                Some(f) => self@.contains_key(name@) && *f == self@[name@],
                None => !self@.contains_key(name@),
            },
    {
        proof {
            assert(self.entries@.skip(0) =~= self.entries@);
        }
        let n = self.entries.len();
        let mut i: usize = 0;
        while i < n
            invariant
                i <= n == self.entries@.len(),
                spec_lookup(self.entries@.skip(i as int), name@) == spec_lookup(
                    self.entries@,
                    name@,
                ),
            decreases n - i,
        {
            let hit = self.entries[i].0.eq(name);
            let ghost rem = self.entries@.skip(i as int);
            if hit {
                proof {
                    assert(rem[0] == self.entries@[i as int]);
                }
                return Some(&self.entries[i].1);
            }
            proof {
                assert(rem[0] == self.entries@[i as int]);
                assert(rem.drop_first() =~= self.entries@.skip(i + 1));
            }
            i = i + 1;
        }
        proof {
            assert(self.entries@.skip(n as int) =~= Seq::<(String, FilesystemT)>::empty());
        }
        None
    }
}

proof fn lemma_lookup_none<FilesystemT>(entries: Seq<(String, FilesystemT)>, name: Seq<char>)
    requires
        forall|j: int| 0 <= j < entries.len() ==> entries[j].0@ != name,
    ensures
        spec_lookup(entries, name) is None,
    decreases entries.len(),
{
    if entries.len() != 0 {
        assert(forall|j: int|
            0 <= j < entries.drop_first().len() ==> entries.drop_first()[j] == entries[j + 1]);
        lemma_lookup_none(entries.drop_first(), name);
    }
}

/// Builder-pattern struct to configure a server: the listen address,
/// the message size ceiling, and the exported filesystems. The pieces
/// that touch the network are assembled by the embedding application
/// from these parts.
pub struct AsyncServerBuilder<FilesystemT: Filesystem> {
    /// The IP address and port to listen on, if one was given.
    pub tcp_listen_address: Option<String>,
    /// The configured msize, if one was given.
    pub msize: Option<u32>,
    /// The filesystems to export, by share name.
    pub filesystems: FilesystemMap<FilesystemT>,
}

impl<FilesystemT: Filesystem> AsyncServerBuilder<FilesystemT> {
    /// Create a new builder with nothing configured.
    pub fn new() -> (r: Self)
        ensures
            r.tcp_listen_address is None,
            r.msize is None,
            r.filesystems@ == Map::<Seq<char>, FilesystemT>::empty(),
    {
        Self { filesystems: FilesystemMap::new(), msize: None, tcp_listen_address: None }
    }

    /// Set the configured msize (maximum size, in bytes, to use for a
    /// single packet).
    pub fn with_msize(self, msize: u32) -> (r: Self)
        ensures
            r.msize == Some(msize),
            r.tcp_listen_address == self.tcp_listen_address,
            r.filesystems == self.filesystems,
    {
        Self { msize: Some(msize), ..self }
    }

    /// Set the IP address and port to listen on.
    pub fn with_tcp_listen_address(self, addr: &str) -> (r: Self)
        ensures
            r.tcp_listen_address matches Some(a) && a@ == addr@,
            r.msize == self.msize,
            r.filesystems == self.filesystems,
    {
        Self { tcp_listen_address: Some(addr.to_owned()), ..self }
    }

    /// Use the provided Filesystem for the specified filesystem name
    /// (aname).
    pub fn with_filesystem(self, name: &str, fs: FilesystemT) -> (r: Self)
        ensures
            r.filesystems@ == self.filesystems@.insert(name@, fs),
            r.msize == self.msize,
            r.tcp_listen_address == self.tcp_listen_address,
    {
        let mut filesystems = self.filesystems;
        filesystems.insert(name, fs);
        Self { filesystems, ..self }
    }

    /// The message size ceiling the server will offer: the configured
    /// one, or the default.
    pub fn effective_msize(&self) -> (r: u32)
        ensures
            self.msize matches Some(m) ==> r == m,
            self.msize is None ==> r == 0xFFFFFF00u32,
    {
        match self.msize {
            Some(m) => m,
            None => 0xFFFFFF00,
        }
    }
}

} // verus!
