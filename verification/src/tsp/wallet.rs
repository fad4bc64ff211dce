//! The wallet: identifiers known locally, their relationships, aliases
//! and auxiliary keys.
//!
//! The wallet is a plain value. Whoever shares it between tasks puts it
//! behind a lock; every operation here is one atomic step under that
//! lock.

use vstd::prelude::*;
use crate::tsp::error::TspError;
use crate::tsp::string_map::StringMap;
use crate::tsp::types::{
    clone_bytes, clone_opt_bytes, clone_opt_route, clone_opt_string, opt_bytes_view, opt_route_view,
    opt_string_view, Aliases, RelationshipStatus, RelationshipStatusView, Route, VidContext,
    VidContextView, WebvhUpdateKeys,
};

verus! {

/// `base` after binding each pair in turn; later pairs win.
pub open spec fn extended<V>(base: Map<Seq<char>, V>, pairs: Seq<(Seq<char>, V)>) -> Map<
    Seq<char>,
    V,
>
    decreases pairs.len(),
{
    if pairs.len() == 0 {
        base
    } else {
        extended(base, pairs.drop_last()).insert(pairs.last().0, pairs.last().1)
    }
}

/// `listed` holds exactly the entries of `map`, each once.
pub open spec fn lists_entries<V>(listed: Seq<(Seq<char>, V)>, map: Map<Seq<char>, V>) -> bool {
    &&& forall|i: int|
        0 <= i < listed.len() ==> map.contains_key((#[trigger] listed[i]).0) && map[listed[i].0]
            == listed[i].1
    &&& forall|i: int, j: int|
        0 <= i < j < listed.len() ==> (#[trigger] listed[i]).0 != (#[trigger] listed[j]).0
    &&& forall|k: Seq<char>| #[trigger]
        map.contains_key(k) ==> exists|i: int|
            0 <= i < listed.len() && (#[trigger] listed[i]).0 == k
}

/// Binding the entries of a map, listed once each, into an empty map
/// gives the map back.
pub proof fn lemma_extended_lists<V>(listed: Seq<(Seq<char>, V)>, map: Map<Seq<char>, V>)
    requires
        lists_entries(listed, map),
    ensures
        extended(Map::empty(), listed) == map,
    decreases listed.len(),
{
    if listed.len() == 0 {
        assert(map =~= Map::<Seq<char>, V>::empty());
    } else {
        let last = listed.last();
        let prefix = listed.drop_last();
        let rest = map.remove(last.0);
        assert(listed[listed.len() - 1] == last);
        assert forall|i: int| 0 <= i < prefix.len() implies rest.contains_key(
            (#[trigger] prefix[i]).0,
        ) && rest[prefix[i].0] == prefix[i].1 by {
            assert(prefix[i] == listed[i]);
            assert(listed[i].0 != listed[listed.len() - 1].0);
        }
        assert forall|i: int, j: int| 0 <= i < j < prefix.len() implies (#[trigger] prefix[i]).0
            != (#[trigger] prefix[j]).0 by {
            assert(prefix[i] == listed[i] && prefix[j] == listed[j]);
        }
        assert forall|k: Seq<char>| #[trigger] rest.contains_key(k) implies exists|i: int|
            0 <= i < prefix.len() && (#[trigger] prefix[i]).0 == k by {
            assert(map.contains_key(k));
            let i = choose|i: int| 0 <= i < listed.len() && (#[trigger] listed[i]).0 == k;
            assert(prefix[i] == listed[i]);
        }
        lemma_extended_lists(prefix, rest);
        assert(rest.insert(last.0, last.1) =~= map);
    }
}

/// Each context paired with its own identifier.
pub open spec fn context_pairs(vids: Seq<VidContextView>) -> Seq<(Seq<char>, VidContextView)> {
    Seq::new(vids.len(), |i: int| (vids[i].vid, vids[i]))
}

/// The context of an identifier that was just added.
pub open spec fn new_context(
    vid: Seq<char>,
    private: Option<Seq<u8>>,
    metadata: Option<Seq<char>>,
) -> VidContextView {
    VidContextView {
        vid,
        private,
        relation_status: RelationshipStatusView::Unrelated,
        relation_vid: None,
        parent_vid: None,
        tunnel: None,
        metadata,
    }
}

/// Mathematical value of a [`TspWallet`].
pub struct TspWalletView {
    pub vids: Map<Seq<char>, VidContextView>,
    pub aliases: Map<Seq<char>, Seq<char>>,
    pub keys: Map<Seq<char>, Seq<u8>>,
}

impl TspWalletView {
    /// The wallet that knows nothing.
    pub open spec fn empty() -> Self {
        TspWalletView { vids: Map::empty(), aliases: Map::empty(), keys: Map::empty() }
    }

    /// Every context is stored under its own identifier.
    pub open spec fn keyed(self) -> bool {
        forall|vid: Seq<char>| #[trigger] self.vids.contains_key(vid) ==> self.vids[vid].vid == vid
    }

    /// `vid` is known.
    pub open spec fn has_verified(self, vid: Seq<char>) -> bool {
        self.vids.contains_key(vid)
    }

    /// `vid` is known and locally controlled.
    pub open spec fn has_private(self, vid: Seq<char>) -> bool {
        self.vids.contains_key(vid) && self.vids[vid].private is Some
    }

    /// After adding a locally controlled identifier.
    pub open spec fn with_private_vid(
        self,
        vid: Seq<char>,
        private: Option<Seq<u8>>,
        metadata: Option<Seq<char>>,
    ) -> Self {
        TspWalletView { vids: self.vids.insert(vid, new_context(vid, private, metadata)), ..self }
    }

    /// After adding a remote identifier: a known identifier keeps all but
    /// its metadata.
    pub open spec fn with_verified_vid(self, vid: Seq<char>, metadata: Option<Seq<char>>) -> Self {
        if self.vids.contains_key(vid) {
            TspWalletView {
                vids: self.vids.insert(vid, VidContextView { metadata, ..self.vids[vid] }),
                ..self
            }
        } else {
            TspWalletView { vids: self.vids.insert(vid, new_context(vid, None, metadata)), ..self }
        }
    }

    /// After overwriting the status and counterparty of a known `vid`.
    pub open spec fn with_relationship(
        self,
        vid: Seq<char>,
        status: RelationshipStatusView,
        relation_vid: Option<Seq<char>>,
    ) -> Self {
        TspWalletView {
            vids: self.vids.insert(
                vid,
                VidContextView { relation_status: status, relation_vid, ..self.vids[vid] },
            ),
            ..self
        }
    }

    /// The status stored for `local` if its counterparty is `remote`,
    /// else `Unrelated`.
    pub open spec fn relationship(self, local: Seq<char>, remote: Seq<char>) -> RelationshipStatusView {
        if self.vids[local].relation_vid == Some(remote) {
            self.vids[local].relation_status
        } else {
            RelationshipStatusView::Unrelated
        }
    }

    /// After setting the parent of a known `vid`.
    pub open spec fn with_parent(self, vid: Seq<char>, parent: Option<Seq<char>>) -> Self {
        TspWalletView {
            vids: self.vids.insert(vid, VidContextView { parent_vid: parent, ..self.vids[vid] }),
            ..self
        }
    }

    /// After setting the route of a known `vid`.
    pub open spec fn with_tunnel(self, vid: Seq<char>, route: Option<Seq<Seq<char>>>) -> Self {
        TspWalletView {
            vids: self.vids.insert(vid, VidContextView { tunnel: route, ..self.vids[vid] }),
            ..self
        }
    }

    /// What `alias` stands for: its binding, or itself when it has none.
    pub open spec fn resolve(self, alias: Seq<char>) -> Seq<char> {
        if self.aliases.contains_key(alias) {
            self.aliases[alias]
        } else {
            alias
        }
    }

    /// After importing: contexts are merged by identifier, later ones
    /// winning; aliases and keys are replaced wholesale.
    pub open spec fn imported(
        self,
        vids: Seq<VidContextView>,
        aliases: Seq<(Seq<char>, Seq<char>)>,
        keys: Seq<(Seq<char>, Seq<u8>)>,
    ) -> Self {
        TspWalletView {
            vids: extended(self.vids, context_pairs(vids)),
            aliases: extended(Map::empty(), aliases),
            keys: extended(Map::empty(), keys),
        }
    }

    /// The three lists hold exactly what the wallet holds, each entry
    /// once.
    pub open spec fn exported_as(
        self,
        vids: Seq<VidContextView>,
        aliases: Seq<(Seq<char>, Seq<char>)>,
        keys: Seq<(Seq<char>, Seq<u8>)>,
    ) -> bool {
        &&& lists_entries(context_pairs(vids), self.vids)
        &&& lists_entries(aliases, self.aliases)
        &&& lists_entries(keys, self.keys)
    }
}

/// Importing what a wallet exported into an empty wallet reproduces the
/// wallet: the same identifiers, private and verified, with the same
/// contexts, aliases and keys.
pub proof fn lemma_export_import(
    wallet: TspWalletView,
    vids: Seq<VidContextView>,
    aliases: Seq<(Seq<char>, Seq<char>)>,
    keys: Seq<(Seq<char>, Seq<u8>)>,
)
    requires
        wallet.exported_as(vids, aliases, keys),
    ensures
        TspWalletView::empty().imported(vids, aliases, keys) == wallet,
        forall|vid: Seq<char>|
            TspWalletView::empty().imported(vids, aliases, keys).has_private(vid)
                == wallet.has_private(vid),
        forall|vid: Seq<char>|
            TspWalletView::empty().imported(vids, aliases, keys).has_verified(vid)
                == wallet.has_verified(vid),
{
    lemma_extended_lists(context_pairs(vids), wallet.vids);
    lemma_extended_lists(aliases, wallet.aliases);
    lemma_extended_lists(keys, wallet.keys);
}

/// A list of contexts as a sequence of their values.
pub open spec fn contexts_view(vids: Vec<VidContext>) -> Seq<VidContextView> {
    Seq::new(vids@.len(), |i: int| vids@[i]@)
}

/// A list of aliases as a sequence of pairs.
pub open spec fn aliases_view(aliases: Aliases) -> Seq<(Seq<char>, Seq<char>)> {
    Seq::new(aliases@.len(), |i: int| (aliases@[i].0@, aliases@[i].1@))
}

/// A list of keys as a sequence of pairs.
pub open spec fn keys_view(keys: WebvhUpdateKeys) -> Seq<(Seq<char>, Seq<u8>)> {
    Seq::new(keys@.len(), |i: int| (keys@[i].0@, keys@[i].1@))
}

/// A list of identifiers as a sequence of texts.
pub open spec fn names_view(names: Vec<String>) -> Seq<Seq<char>> {
    Seq::new(names@.len(), |i: int| names@[i]@)
}

/// `listed` names exactly the members of `known`, each once.
pub open spec fn lists_names(listed: Seq<Seq<char>>, known: Set<Seq<char>>) -> bool {
    &&& forall|i: int| 0 <= i < listed.len() ==> known.contains(#[trigger] listed[i])
    &&& forall|i: int, j: int|
        0 <= i < j < listed.len() ==> #[trigger] listed[i] != #[trigger] listed[j]
    &&& forall|name: Seq<char>| #[trigger]
        known.contains(name) ==> exists|i: int| 0 <= i < listed.len() && #[trigger] listed[i] == name
}

/// Store of identifiers, relationships, aliases and auxiliary keys.
#[derive(Debug)]
pub struct TspWallet {
    vids: StringMap<VidContext>,
    aliases: StringMap<String>,
    keys: StringMap<Vec<u8>>,
}

impl View for TspWallet {
    type V = TspWalletView;

    closed spec fn view(&self) -> TspWalletView {
        TspWalletView {
            vids: Map::new(
                |k: Seq<char>| self.vids@.contains_key(k),
                |k: Seq<char>| self.vids@[k]@,
            ),
            aliases: Map::new(
                |k: Seq<char>| self.aliases@.contains_key(k),
                |k: Seq<char>| self.aliases@[k]@,
            ),
            keys: Map::new(
                |k: Seq<char>| self.keys@.contains_key(k),
                |k: Seq<char>| self.keys@[k]@,
            ),
        }
    }
}

/// The error that reports an identifier the wallet does not know.
fn unknown(vid: &str) -> (e: TspError)
    ensures
        e is UnverifiedVid,
        e.detail() == vid@,
{
    TspError::UnverifiedVid(vid.to_owned())
}

impl TspWallet {
    #[verifier::type_invariant]
    spec fn inv(self) -> bool {
        &&& self.vids.wf()
        &&& self.aliases.wf()
        &&& self.keys.wf()
        &&& forall|i: int|
            0 <= i < self.vids.count() ==> (#[trigger] self.vids.value(i)).vid@ == self.vids.key(i)
    }

    /// Moves the parts out, leaving an empty wallet behind.
    fn take_parts(&mut self) -> (r: (StringMap<VidContext>, StringMap<String>, StringMap<Vec<u8>>))
        ensures
            r.0 == old(self).vids,
            r.1 == old(self).aliases,
            r.2 == old(self).keys,
            r.0.wf(),
            r.1.wf(),
            r.2.wf(),
            forall|i: int| 0 <= i < r.0.count() ==> (#[trigger] r.0.value(i)).vid@ == r.0.key(i),
    {
        proof {
            use_type_invariant(&*self);
        }
        let mut taken = TspWallet {
            vids: StringMap::new(),
            aliases: StringMap::new(),
            keys: StringMap::new(),
        };
        core::mem::swap(self, &mut taken);
        let TspWallet { vids, aliases, keys } = taken;
        (vids, aliases, keys)
    }

    /// Every context is stored under its own identifier.
    proof fn lemma_keyed(&self)
        requires
            self.inv(),
        ensures
            self@.keyed(),
    {
        self.vids.lemma_entries();
        assert forall|vid: Seq<char>| #[trigger] self@.vids.contains_key(vid) implies self@.vids[vid].vid
            == vid by {
            let i = self.vids.position(vid);
            assert(self.vids.value(i).vid@ == self.vids.key(i));
        }
    }

    /// A new, empty wallet.
    pub fn new() -> (r: Self)
        ensures
            r@ == TspWalletView::empty(),
    {
        let r = TspWallet {
            vids: StringMap::new(),
            aliases: StringMap::new(),
            keys: StringMap::new(),
        };
        assert(r@.vids =~= Map::<Seq<char>, VidContextView>::empty());
        assert(r@.aliases =~= Map::<Seq<char>, Seq<char>>::empty());
        assert(r@.keys =~= Map::<Seq<char>, Seq<u8>>::empty());
        r
    }

    /// Binds one context under its own identifier.
    fn put_context(vids: &mut StringMap<VidContext>, context: VidContext)
        requires
            old(vids).wf(),
            forall|i: int|
                0 <= i < old(vids).count() ==> (#[trigger] old(vids).value(i)).vid@ == old(vids).key(i),
        ensures
            final(vids).wf(),
            forall|i: int|
                0 <= i < final(vids).count() ==> (#[trigger] final(vids).value(i)).vid@ == final(vids).key(i),
            final(vids)@ == old(vids)@.insert(context.vid@, context),
    {
        let key = context.vid.clone();
        match vids.find(key.as_str()) {
            Some(i) => {
                vids.set_value(i, context);
            },
            None => {
                let ghost n = vids.count() as int;
                proof {
                    vids.lemma_entries();
                }
                vids.insert(key, context);
                proof {
                    vids.lemma_entries();
                    // The new entry is the only one whose key is new.
                    assert forall|i: int| 0 <= i < vids.count() implies (#[trigger] vids.value(
                        i,
                    )).vid@ == vids.key(i) by {
                        let k = vids.key(i);
                        assert(vids@.contains_key(k));
                        if k == context.vid@ {
                            assert(vids@[k] == context);
                        } else {
                            assert(old(vids)@.contains_key(k));
                            let p = old(vids).position(k);
                            assert(old(vids).value(p).vid@ == old(vids).key(p));
                            assert(vids@[k] == old(vids)@[k]);
                        }
                    }
                }
            },
        }
    }

    /// Everything the wallet holds, for persistence: every context, alias
    /// and key, each once.
    pub fn export(&self) -> (r: Result<(Vec<VidContext>, Aliases, WebvhUpdateKeys), TspError>)
        ensures
            r matches Ok((vids, aliases, keys)) && self@.exported_as(
                contexts_view(vids),
                aliases_view(aliases),
                keys_view(keys),
            ),
            self@.keyed(),
    {
        proof {
            use_type_invariant(self);
            self.lemma_keyed();
            self.vids.lemma_entries();
            self.aliases.lemma_entries();
            self.keys.lemma_entries();
        }
        let mut vids: Vec<VidContext> = Vec::new();
        let mut i: usize = 0;
        while i < self.vids.len()
            invariant
                self.vids.wf(),
                i <= self.vids.count(),
                vids@.len() == i,
                forall|j: int| 0 <= j < i ==> (#[trigger] vids@[j])@ == self.vids.value(j)@,
            decreases self.vids.count() - i,
        {
            vids.push(self.vids.value_at(i).clone());
            i = i + 1;
        }
        let mut aliases: Vec<(String, String)> = Vec::new();
        let mut a: usize = 0;
        while a < self.aliases.len()
            invariant
                self.aliases.wf(),
                a <= self.aliases.count(),
                aliases@.len() == a,
                forall|j: int|
                    0 <= j < a ==> (#[trigger] aliases@[j]).0@ == self.aliases.key(j)
                        && aliases@[j].1@ == self.aliases.value(j)@,
            decreases self.aliases.count() - a,
        {
            aliases.push((self.aliases.key_at(a).clone(), self.aliases.value_at(a).clone()));
            a = a + 1;
        }
        let mut keys: Vec<(String, Vec<u8>)> = Vec::new();
        let mut k: usize = 0;
        while k < self.keys.len()
            invariant
                self.keys.wf(),
                k <= self.keys.count(),
                keys@.len() == k,
                forall|j: int|
                    0 <= j < k ==> (#[trigger] keys@[j]).0@ == self.keys.key(j) && keys@[j].1@
                        == self.keys.value(j)@,
            decreases self.keys.count() - k,
        {
            keys.push((self.keys.key_at(k).clone(), clone_bytes(self.keys.value_at(k))));
            k = k + 1;
        }
        proof {
            let cv = context_pairs(contexts_view(vids));
            assert forall|j: int| 0 <= j < cv.len() implies (#[trigger] cv[j]).0 == self.vids.key(
                j,
            ) && cv[j].1 == self.vids.value(j)@ by {
                assert(vids@[j]@ == self.vids.value(j)@);
                assert(self.vids.value(j).vid@ == self.vids.key(j));
            }
            assert(lists_entries(cv, self@.vids)) by {
                assert forall|q: Seq<char>| #[trigger] self@.vids.contains_key(q) implies exists|
                    j: int,
                |
                    0 <= j < cv.len() && (#[trigger] cv[j]).0 == q by {
                    let p = self.vids.position(q);
                    assert(cv[p].0 == q);
                }
                assert forall|j: int| 0 <= j < cv.len() implies self@.vids.contains_key(
                    (#[trigger] cv[j]).0,
                ) && self@.vids[cv[j].0] == cv[j].1 by {
                    assert(self.vids@.contains_key(self.vids.key(j)));
                }
            }
            let av = aliases_view(aliases);
            assert(lists_entries(av, self@.aliases)) by {
                assert forall|j: int| 0 <= j < av.len() implies (#[trigger] av[j]).0
                    == self.aliases.key(j) && av[j].1 == self.aliases.value(j)@ by {
                    assert(aliases@[j].0@ == self.aliases.key(j));
                }
                assert forall|q: Seq<char>| #[trigger]
                    self@.aliases.contains_key(q) implies exists|j: int|
                    0 <= j < av.len() && (#[trigger] av[j]).0 == q by {
                    let p = self.aliases.position(q);
                    assert(av[p].0 == q);
                }
                assert forall|j: int| 0 <= j < av.len() implies self@.aliases.contains_key(
                    (#[trigger] av[j]).0,
                ) && self@.aliases[av[j].0] == av[j].1 by {
                    assert(self.aliases@.contains_key(self.aliases.key(j)));
                }
            }
            let kv = keys_view(keys);
            assert(lists_entries(kv, self@.keys)) by {
                assert forall|j: int| 0 <= j < kv.len() implies (#[trigger] kv[j]).0
                    == self.keys.key(j) && kv[j].1 == self.keys.value(j)@ by {
                    assert(keys@[j].0@ == self.keys.key(j));
                }
                assert forall|q: Seq<char>| #[trigger] self@.keys.contains_key(q) implies exists|
                    j: int,
                |
                    0 <= j < kv.len() && (#[trigger] kv[j]).0 == q by {
                    let p = self.keys.position(q);
                    assert(kv[p].0 == q);
                }
                assert forall|j: int| 0 <= j < kv.len() implies self@.keys.contains_key(
                    (#[trigger] kv[j]).0,
                ) && self@.keys[kv[j].0] == kv[j].1 by {
                    assert(self.keys@.contains_key(self.keys.key(j)));
                }
            }
        }
        Ok((vids, aliases, keys))
    }

    /// Takes in persisted data: contexts are merged by identifier, the
    /// last one winning; aliases and keys are replaced wholesale.
    pub fn import(&mut self, vids: Vec<VidContext>, aliases: Aliases, keys: WebvhUpdateKeys) -> (r:
        Result<(), TspError>)
        ensures
            r is Ok,
            final(self)@ == old(self)@.imported(
                contexts_view(vids),
                aliases_view(aliases),
                keys_view(keys),
            ),
    {
        let (mut own_vids, _, _) = self.take_parts();
        let ghost cv = context_pairs(contexts_view(vids));
        let ghost base = old(self)@.vids;
        let mut i: usize = 0;
        assert(cv.take(0) =~= Seq::<(Seq<char>, VidContextView)>::empty());
        while i < vids.len()
            invariant
                i <= vids.len(),
                cv == context_pairs(contexts_view(vids)),
                own_vids.wf(),
                forall|j: int|
                    0 <= j < own_vids.count() ==> (#[trigger] own_vids.value(j)).vid@
                        == own_vids.key(j),
                Map::new(
                    |k: Seq<char>| own_vids@.contains_key(k),
                    |k: Seq<char>| own_vids@[k]@,
                ) == extended(base, cv.take(i as int)),
            decreases vids.len() - i,
        {
            let context = vids[i].clone();
            let ghost before = own_vids@;
            Self::put_context(&mut own_vids, context);
            proof {
                let next = cv.take(i + 1);
                assert(next.drop_last() =~= cv.take(i as int));
                assert(next.last() == cv[i as int]);
                assert(Map::new(
                    |k: Seq<char>| own_vids@.contains_key(k),
                    |k: Seq<char>| own_vids@[k]@,
                ) =~= Map::new(
                    |k: Seq<char>| before.contains_key(k),
                    |k: Seq<char>| before[k]@,
                ).insert(context.vid@, context@));
            }
            i = i + 1;
        }
        assert(cv.take(vids.len() as int) =~= cv);
        let ghost av = aliases_view(aliases);
        let mut own_aliases: StringMap<String> = StringMap::new();
        let mut a: usize = 0;
        assert(av.take(0) =~= Seq::<(Seq<char>, Seq<char>)>::empty());
        assert(Map::new(
            |k: Seq<char>| own_aliases@.contains_key(k),
            |k: Seq<char>| own_aliases@[k]@,
        ) =~= Map::<Seq<char>, Seq<char>>::empty());
        while a < aliases.len()
            invariant
                a <= aliases.len(),
                av == aliases_view(aliases),
                own_aliases.wf(),
                Map::new(
                    |k: Seq<char>| own_aliases@.contains_key(k),
                    |k: Seq<char>| own_aliases@[k]@,
                ) == extended(Map::empty(), av.take(a as int)),
            decreases aliases.len() - a,
        {
            let ghost before = own_aliases@;
            let name = aliases[a].0.clone();
            let target = aliases[a].1.clone();
            own_aliases.insert(name, target);
            proof {
                let next = av.take(a + 1);
                assert(next.drop_last() =~= av.take(a as int));
                assert(next.last() == av[a as int]);
                assert(Map::new(
                    |k: Seq<char>| own_aliases@.contains_key(k),
                    |k: Seq<char>| own_aliases@[k]@,
                ) =~= Map::new(
                    |k: Seq<char>| before.contains_key(k),
                    |k: Seq<char>| before[k]@,
                ).insert(name@, target@));
            }
            a = a + 1;
        }
        assert(av.take(aliases.len() as int) =~= av);
        let ghost kv = keys_view(keys);
        let mut own_keys: StringMap<Vec<u8>> = StringMap::new();
        let mut k: usize = 0;
        assert(kv.take(0) =~= Seq::<(Seq<char>, Seq<u8>)>::empty());
        assert(Map::new(|q: Seq<char>| own_keys@.contains_key(q), |q: Seq<char>| own_keys@[q]@)
            =~= Map::<Seq<char>, Seq<u8>>::empty());
        while k < keys.len()
            invariant
                k <= keys.len(),
                kv == keys_view(keys),
                own_keys.wf(),
                Map::new(|q: Seq<char>| own_keys@.contains_key(q), |q: Seq<char>| own_keys@[q]@)
                    == extended(Map::empty(), kv.take(k as int)),
            decreases keys.len() - k,
        {
            let ghost before = own_keys@;
            let kid = keys[k].0.clone();
            let secret = clone_bytes(&keys[k].1);
            own_keys.insert(kid, secret);
            proof {
                let next = kv.take(k + 1);
                assert(next.drop_last() =~= kv.take(k as int));
                assert(next.last() == kv[k as int]);
                assert(Map::new(
                    |q: Seq<char>| own_keys@.contains_key(q),
                    |q: Seq<char>| own_keys@[q]@,
                ) =~= Map::new(
                    |q: Seq<char>| before.contains_key(q),
                    |q: Seq<char>| before[q]@,
                ).insert(kid@, secret@));
            }
            k = k + 1;
        }
        assert(kv.take(keys.len() as int) =~= kv);
        *self = TspWallet { vids: own_vids, aliases: own_aliases, keys: own_keys };
        Ok(())
    }

    /// Adds a locally controlled identifier, replacing whatever was known
    /// of it.
    pub fn add_private_vid(
        &mut self,
        vid: String,
        private: Option<Vec<u8>>,
        metadata: Option<String>,
    ) -> (r: Result<(), TspError>)
        ensures
            r is Ok,
            final(self)@ == old(self)@.with_private_vid(
                vid@,
                opt_bytes_view(private),
                opt_string_view(metadata),
            ),
    {
        let (mut vids, aliases, keys) = self.take_parts();
        let context = VidContext {
            vid,
            private,
            relation_status: RelationshipStatus::Unrelated,
            relation_vid: None,
            parent_vid: None,
            tunnel: None,
            metadata,
        };
        Self::put_context(&mut vids, context);
        *self = TspWallet { vids, aliases, keys };
        assert(self@.vids =~= old(self)@.with_private_vid(
            vid@,
            opt_bytes_view(private),
            opt_string_view(metadata),
        ).vids);
        Ok(())
    }

    /// Adds a remote identifier. One that is already known keeps
    /// everything but its metadata.
    pub fn add_verified_vid(&mut self, vid: String, metadata: Option<String>) -> (r: Result<
        (),
        TspError,
    >)
        ensures
            r is Ok,
            final(self)@ == old(self)@.with_verified_vid(vid@, opt_string_view(metadata)),
    {
        let (mut vids, aliases, keys) = self.take_parts();
        proof {
            vids.lemma_entries();
        }
        let context = match vids.find(vid.as_str()) {
            Some(i) => {
                let known = vids.value_at(i);
                VidContext {
                    vid: known.vid.clone(),
                    private: clone_opt_bytes(&known.private),
                    relation_status: known.relation_status.clone(),
                    relation_vid: clone_opt_string(&known.relation_vid),
                    parent_vid: clone_opt_string(&known.parent_vid),
                    tunnel: clone_opt_route(&known.tunnel),
                    metadata,
                }
            },
            None => VidContext {
                vid,
                private: None,
                relation_status: RelationshipStatus::Unrelated,
                relation_vid: None,
                parent_vid: None,
                tunnel: None,
                metadata,
            },
        };
        Self::put_context(&mut vids, context);
        *self = TspWallet { vids, aliases, keys };
        assert(self@.vids =~= old(self)@.with_verified_vid(vid@, opt_string_view(metadata)).vids);
        Ok(())
    }

    /// Whether `vid` is known and locally controlled.
    pub fn has_private_vid(&self, vid: &str) -> (r: Result<bool, TspError>)
        ensures
            r matches Ok(b) && b == self@.has_private(vid@),
    {
        proof {
            use_type_invariant(self);
        }
        match self.vids.find(vid) {
            Some(i) => {
                proof {
                    self.vids.lemma_entries();
                }
                Ok(self.vids.value_at(i).private.is_some())
            },
            None => Ok(false),
        }
    }

    /// Whether `vid` is known.
    pub fn has_verified_vid(&self, vid: &str) -> (r: Result<bool, TspError>)
        ensures
            r matches Ok(b) && b == self@.has_verified(vid@),
    {
        proof {
            use_type_invariant(self);
        }
        Ok(self.vids.find(vid).is_some())
    }

    /// The context of `vid`, if it is known.
    pub fn get_vid(&self, vid: &str) -> (r: Result<Option<VidContext>, TspError>)
        ensures
            r matches Ok(found) && match found {
                Some(context) => self@.vids.contains_key(vid@) && context@ == self@.vids[vid@],
                None => !self@.vids.contains_key(vid@),
            },
    {
        proof {
            use_type_invariant(self);
        }
        match self.vids.find(vid) {
            Some(i) => {
                proof {
                    self.vids.lemma_entries();
                }
                Ok(Some(self.vids.value_at(i).clone()))
            },
            None => Ok(None),
        }
    }

    /// Every known identifier, each once.
    pub fn list_vids(&self) -> (r: Result<Vec<String>, TspError>)
        ensures
            r matches Ok(names) && lists_names(names_view(names), self@.vids.dom()),
    {
        proof {
            use_type_invariant(self);
            self.vids.lemma_entries();
        }
        let mut names: Vec<String> = Vec::new();
        let mut i: usize = 0;
        while i < self.vids.len()
            invariant
                self.vids.wf(),
                i <= self.vids.count(),
                names@.len() == i,
                forall|j: int| 0 <= j < i ==> (#[trigger] names@[j])@ == self.vids.key(j),
            decreases self.vids.count() - i,
        {
            names.push(self.vids.key_at(i).clone());
            i = i + 1;
        }
        proof {
            let listed = names_view(names);
            let known = self@.vids.dom();
            assert forall|j: int| 0 <= j < listed.len() implies known.contains(
                #[trigger] listed[j],
            ) by {
                assert(self.vids@.contains_key(self.vids.key(j)));
            }
            assert forall|name: Seq<char>| #[trigger] known.contains(name) implies exists|j: int|
                0 <= j < listed.len() && #[trigger] listed[j] == name by {
                let p = self.vids.position(name);
                assert(listed[p] == name);
            }
            assert forall|a: int, b: int| 0 <= a < b < listed.len() implies #[trigger] listed[a]
                != #[trigger] listed[b] by {
                assert(self.vids.key(a) != self.vids.key(b));
            }
        }
        Ok(names)
    }

    /// What `alias` stands for: its binding, or the name itself when it
    /// has none.
    pub fn resolve_alias(&self, alias: &str) -> (r: Result<String, TspError>)
        ensures
            r matches Ok(vid) && vid@ == self@.resolve(alias@),
    {
        proof {
            use_type_invariant(self);
        }
        match self.aliases.find(alias) {
            Some(i) => {
                proof {
                    self.aliases.lemma_entries();
                }
                Ok(self.aliases.value_at(i).clone())
            },
            None => Ok(alias.to_owned()),
        }
    }

    /// Binds `alias` to `vid`.
    pub fn set_alias(&mut self, alias: String, vid: String) -> (r: Result<(), TspError>)
        ensures
            r is Ok,
            final(self)@ == (TspWalletView {
                aliases: old(self)@.aliases.insert(alias@, vid@),
                ..old(self)@
            }),
    {
        let (vids, mut aliases, keys) = self.take_parts();
        aliases.insert(alias, vid);
        *self = TspWallet { vids, aliases, keys };
        assert(self@.aliases =~= old(self)@.aliases.insert(alias@, vid@));
        Ok(())
    }

    /// Overwrites status and counterparty of `vid` in one step; an
    /// unknown identifier is refused and nothing changes.
    pub fn set_relationship(
        &mut self,
        vid: &str,
        status: RelationshipStatus,
        relation_vid: Option<String>,
    ) -> (r: Result<(), TspError>)
        ensures
            match r {
                Ok(_) => old(self)@.vids.contains_key(vid@) && final(self)@ == old(self)@.with_relationship(vid@, status@, opt_string_view(relation_vid)),
                Err(e) => !old(self)@.vids.contains_key(vid@) && final(self)@ == old(self)@
                    && e is UnverifiedVid && e.detail() == vid@,
            },
    {
        let (mut vids, aliases, keys) = self.take_parts();
        proof {
            vids.lemma_entries();
        }
        match vids.find(vid) {
            Some(i) => {
                let known = vids.value_at(i);
                let context = VidContext {
                    vid: known.vid.clone(),
                    private: clone_opt_bytes(&known.private),
                    relation_status: status,
                    relation_vid,
                    parent_vid: clone_opt_string(&known.parent_vid),
                    tunnel: clone_opt_route(&known.tunnel),
                    metadata: clone_opt_string(&known.metadata),
                };
                vids.set_value(i, context);
                *self = TspWallet { vids, aliases, keys };
                assert(self@.vids =~= old(self)@.with_relationship(
                    vid@,
                    status@,
                    opt_string_view(relation_vid),
                ).vids);
                Ok(())
            },
            None => {
                *self = TspWallet { vids, aliases, keys };
                Err(unknown(vid))
            },
        }
    }

    /// The status stored for `local_vid` if its counterparty is
    /// `remote_vid`, else `Unrelated`; an unknown `local_vid` is refused.
    pub fn get_relationship(&self, local_vid: &str, remote_vid: &str) -> (r: Result<
        RelationshipStatus,
        TspError,
    >)
        ensures
            match r {
                Ok(status) => self@.vids.contains_key(local_vid@) && status@ == self@.relationship(
                    local_vid@,
                    remote_vid@,
                ),
                Err(e) => !self@.vids.contains_key(local_vid@) && e is UnverifiedVid && e.detail()
                    == local_vid@,
            },
    {
        proof {
            use_type_invariant(self);
        }
        match self.vids.find(local_vid) {
            Some(i) => {
                proof {
                    self.vids.lemma_entries();
                }
                let context = self.vids.value_at(i);
                let remote = remote_vid.to_owned();
                let matches = match &context.relation_vid {
                    Some(counterparty) => *counterparty == remote,
                    None => false,
                };
                if matches {
                    Ok(context.relation_status.clone())
                } else {
                    Ok(RelationshipStatus::Unrelated)
                }
            },
            None => Err(unknown(local_vid)),
        }
    }

    /// Sets the parent of `vid`; an unknown identifier is refused and
    /// nothing changes.
    pub fn set_parent_vid(&mut self, vid: &str, parent: Option<&str>) -> (r: Result<(), TspError>)
        ensures
            match r {
                Ok(_) => old(self)@.vids.contains_key(vid@) && final(self)@ == old(self)@.with_parent(
                    vid@,
                    match parent {
                        Some(p) => Some(p@),
                        None => None,
                    },
                ),
                Err(e) => !old(self)@.vids.contains_key(vid@) && final(self)@ == old(self)@
                    && e is UnverifiedVid && e.detail() == vid@,
            },
    {
        let (mut vids, aliases, keys) = self.take_parts();
        proof {
            vids.lemma_entries();
        }
        match vids.find(vid) {
            Some(i) => {
                let known = vids.value_at(i);
                let context = VidContext {
                    vid: known.vid.clone(),
                    private: clone_opt_bytes(&known.private),
                    relation_status: known.relation_status.clone(),
                    relation_vid: clone_opt_string(&known.relation_vid),
                    parent_vid: match parent {
                        Some(p) => Some(p.to_owned()),
                        None => None,
                    },
                    tunnel: clone_opt_route(&known.tunnel),
                    metadata: clone_opt_string(&known.metadata),
                };
                vids.set_value(i, context);
                *self = TspWallet { vids, aliases, keys };
                assert(self@.vids =~= old(self)@.with_parent(
                    vid@,
                    match parent {
                        Some(p) => Some(p@),
                        None => None,
                    },
                ).vids);
                Ok(())
            },
            None => {
                *self = TspWallet { vids, aliases, keys };
                Err(unknown(vid))
            },
        }
    }

    /// Sets the route for reaching `vid`; an unknown identifier is
    /// refused and nothing changes.
    pub fn set_route(&mut self, vid: &str, route: Option<Route>) -> (r: Result<(), TspError>)
        ensures
            match r {
                Ok(_) => old(self)@.vids.contains_key(vid@) && final(self)@ == old(self)@.with_tunnel(vid@, opt_route_view(route)),
                Err(e) => !old(self)@.vids.contains_key(vid@) && final(self)@ == old(self)@
                    && e is UnverifiedVid && e.detail() == vid@,
            },
    {
        let (mut vids, aliases, keys) = self.take_parts();
        proof {
            vids.lemma_entries();
        }
        match vids.find(vid) {
            Some(i) => {
                let known = vids.value_at(i);
                let context = VidContext {
                    vid: known.vid.clone(),
                    private: clone_opt_bytes(&known.private),
                    relation_status: known.relation_status.clone(),
                    relation_vid: clone_opt_string(&known.relation_vid),
                    parent_vid: clone_opt_string(&known.parent_vid),
                    tunnel: route,
                    metadata: clone_opt_string(&known.metadata),
                };
                vids.set_value(i, context);
                *self = TspWallet { vids, aliases, keys };
                assert(self@.vids =~= old(self)@.with_tunnel(vid@, opt_route_view(route)).vids);
                Ok(())
            },
            None => {
                *self = TspWallet { vids, aliases, keys };
                Err(unknown(vid))
            },
        }
    }

    /// Stores an auxiliary key under its id.
    pub fn store_key(&mut self, kid: String, secret_key: Vec<u8>) -> (r: Result<(), TspError>)
        ensures
            r is Ok,
            final(self)@ == (TspWalletView {
                keys: old(self)@.keys.insert(kid@, secret_key@),
                ..old(self)@
            }),
    {
        let (vids, aliases, mut keys) = self.take_parts();
        keys.insert(kid, secret_key);
        *self = TspWallet { vids, aliases, keys };
        assert(self@.keys =~= old(self)@.keys.insert(kid@, secret_key@));
        Ok(())
    }

    /// The auxiliary key stored under `kid`, if any.
    pub fn get_key(&self, kid: &str) -> (r: Result<Option<Vec<u8>>, TspError>)
        ensures
            r matches Ok(found) && match found {
                Some(key) => self@.keys.contains_key(kid@) && key@ == self@.keys[kid@],
                None => !self@.keys.contains_key(kid@),
            },
    {
        proof {
            use_type_invariant(self);
        }
        match self.keys.find(kid) {
            Some(i) => {
                proof {
                    self.keys.lemma_entries();
                }
                Ok(Some(clone_bytes(self.keys.value_at(i))))
            },
            None => Ok(None),
        }
    }
}

impl Default for TspWallet {
    fn default() -> (r: Self)
        ensures
            r@ == TspWalletView::empty(),
    {
        TspWallet::new()
    }
}

} // verus!
