//! What is known about the origin of a log before any rule runs: the launcher
//! that wrote it and the mods that are installed. It is built once, handed to
//! every rule, and no rule can change it.

use crate::text::{occurs_in, text_contains, text_eq};
use vstd::prelude::*;

verus! {

/// The launchers that are told apart.
#[derive(Clone, Copy, Debug, PartialEq, Eq, Structural, Hash)]
pub enum Launcher {
    MultiMC,
    Prism,
    PolyMC,
}

/// The line with which MultiMC heads its logs.
pub const MULTIMC_MARKER: &'static str = "MultiMC version: ";

/// The line with which Prism Launcher heads its logs.
pub const PRISM_MARKER: &'static str = "Prism Launcher version: ";

/// The line with which PolyMC heads its logs.
pub const POLYMC_MARKER: &'static str = "PolyMC version: ";

/// The identifier under which a mod is known.
#[derive(Clone, Debug)]
pub struct ModId(pub String);

/// What is recorded of an installed mod. No rule reads it: rules ask only
/// whether an identifier is known.
#[derive(Clone, Debug)]
pub struct ModMetadata {
    pub version: String,
}

/// What is recorded of an installed mod, as contracts speak of it.
pub ghost struct ModMetadataView {
    pub version: Seq<char>,
}

impl View for ModMetadata {
    type V = ModMetadataView;

    open spec fn view(&self) -> ModMetadataView {
        ModMetadataView { version: self.version@ }
    }
}

/// One installed mod.
#[derive(Clone, Debug)]
pub struct KnownMod {
    pub id: ModId,
    pub metadata: ModMetadata,
}

/// The origin of a log as contracts speak of it.
pub ghost struct ContextView {
    pub launcher: Option<Launcher>,
    pub known_mods: Map<Seq<char>, ModMetadataView>,
}

/// The origin of a log. The known mods are a mapping from identifier to
/// metadata: no identifier is held twice.
#[derive(Debug)]
pub struct EnvironmentContext {
    launcher: Option<Launcher>,
    known_mods: Vec<KnownMod>,
}

/// The mapping that a list of mods stands for, a later entry replacing an
/// earlier one with the same identifier.
pub open spec fn mods_map(mods: Seq<KnownMod>) -> Map<Seq<char>, ModMetadataView>
    decreases mods.len(),
{
    if mods.len() == 0 {
        Map::empty()
    } else {
        mods_map(mods.drop_last()).insert(mods.last().id.0@, mods.last().metadata@)
    }
}

/// No identifier occurs twice in `mods`.
pub open spec fn distinct_ids(mods: Seq<KnownMod>) -> bool {
    forall|i: int, j: int|
        0 <= i < j < mods.len() ==> (#[trigger] mods[i]).id.0@ != (#[trigger] mods[j]).id.0@
}

/// The launcher whose marker occurs in `log`. Where the markers of several
/// occur, the one declared first among the launchers is taken.
pub open spec fn launcher_of(log: Seq<char>) -> Option<Launcher> {
    if occurs_in(MULTIMC_MARKER@, log) {
        Some(Launcher::MultiMC)
    } else if occurs_in(PRISM_MARKER@, log) {
        Some(Launcher::Prism)
    } else if occurs_in(POLYMC_MARKER@, log) {
        Some(Launcher::PolyMC)
    } else {
        None
    }
}

/// Tells from its text which launcher wrote a log, if any marker of a known
/// launcher occurs in it.
pub fn detect_launcher(log: &str) -> (launcher: Option<Launcher>)
    ensures
        launcher == launcher_of(log@),
{
    if text_contains(log, MULTIMC_MARKER) {
        Some(Launcher::MultiMC)
    } else if text_contains(log, PRISM_MARKER) {
        Some(Launcher::Prism)
    } else if text_contains(log, POLYMC_MARKER) {
        Some(Launcher::PolyMC)
    } else {
        None
    }
}

proof fn lemma_mods_map_keys(mods: Seq<KnownMod>, id: Seq<char>)
    ensures
        mods_map(mods).contains_key(id) <==> exists|i: int|
            0 <= i < mods.len() && (#[trigger] mods[i]).id.0@ == id,
    decreases mods.len(),
{
    if mods.len() > 0 {
        let front = mods.drop_last();
        lemma_mods_map_keys(front, id);
        if mods_map(mods).contains_key(id) {
            if mods.last().id.0@ == id {
                assert(mods[mods.len() - 1].id.0@ == id);
            } else {
                let i = choose|i: int| 0 <= i < front.len() && (#[trigger] front[i]).id.0@ == id;
                assert(mods[i].id.0@ == id);
            }
        }
        if exists|i: int| 0 <= i < mods.len() && (#[trigger] mods[i]).id.0@ == id {
            let i = choose|i: int| 0 <= i < mods.len() && (#[trigger] mods[i]).id.0@ == id;
            if i < mods.len() - 1 {
                assert(front[i].id.0@ == id);
            }
        }
    }
}

proof fn lemma_mods_map_value(mods: Seq<KnownMod>, i: int)
    requires
        distinct_ids(mods),
        0 <= i < mods.len(),
    ensures
        mods_map(mods).contains_key(mods[i].id.0@),
        mods_map(mods)[mods[i].id.0@] == mods[i].metadata@,
    decreases mods.len(),
{
    let front = mods.drop_last();
    if i < mods.len() - 1 {
        assert(distinct_ids(front)) by {
            assert forall|a: int, b: int| 0 <= a < b < front.len() implies (#[trigger] front[a]).id.0@
                != (#[trigger] front[b]).id.0@ by {
                assert(mods[a].id.0@ != mods[b].id.0@);
            }
        }
        lemma_mods_map_value(front, i);
        assert(front[i] == mods[i]);
        assert(mods[i].id.0@ != mods[mods.len() - 1].id.0@);
    }
}

proof fn lemma_mods_map_update(mods: Seq<KnownMod>, i: int, entry: KnownMod)
    requires
        distinct_ids(mods),
        0 <= i < mods.len(),
        entry.id.0@ == mods[i].id.0@,
    ensures
        distinct_ids(mods.update(i, entry)),
        mods_map(mods.update(i, entry)) == mods_map(mods).insert(entry.id.0@, entry.metadata@),
    decreases mods.len(),
{
    let after = mods.update(i, entry);
    assert(distinct_ids(after)) by {
        assert forall|a: int, b: int| 0 <= a < b < after.len() implies (#[trigger] after[a]).id.0@
            != (#[trigger] after[b]).id.0@ by {
            assert(mods[a].id.0@ != mods[b].id.0@);
        }
    }
    let front = mods.drop_last();
    if i == mods.len() - 1 {
        assert(after.drop_last() =~= front);
        assert(mods_map(after) =~= mods_map(mods).insert(entry.id.0@, entry.metadata@));
    } else {
        assert(distinct_ids(front)) by {
            assert forall|a: int, b: int| 0 <= a < b < front.len() implies (#[trigger] front[a]).id.0@
                != (#[trigger] front[b]).id.0@ by {
                assert(mods[a].id.0@ != mods[b].id.0@);
            }
        }
        lemma_mods_map_update(front, i, entry);
        assert(after.drop_last() =~= front.update(i, entry));
        assert(after.last() == mods.last());
        assert(mods[i].id.0@ != mods[mods.len() - 1].id.0@);
        assert(mods_map(after) =~= mods_map(mods).insert(entry.id.0@, entry.metadata@));
    }
}

impl View for EnvironmentContext {
    type V = ContextView;

    closed spec fn view(&self) -> ContextView {
        ContextView { launcher: self.launcher, known_mods: mods_map(self.known_mods@) }
    }
}

impl EnvironmentContext {
    #[verifier::type_invariant]
    spec fn no_id_twice(&self) -> bool {
        distinct_ids(self.known_mods@)
    }

    /// A context with the given launcher and no known mod.
    pub fn new(launcher: Option<Launcher>) -> (ctx: EnvironmentContext)
        ensures
            ctx@.launcher == launcher,
            ctx@.known_mods == Map::<Seq<char>, ModMetadataView>::empty(),
    {
        EnvironmentContext { launcher, known_mods: Vec::new() }
    }

    /// The context of a log: the launcher that its text shows, and the given
    /// mods, a later one replacing an earlier one with the same identifier.
    pub fn build(log: &str, installed: Vec<KnownMod>) -> (ctx: EnvironmentContext)
        ensures
            ctx@.launcher == launcher_of(log@),
            ctx@.known_mods == mods_map(installed@),
    {
        let mut ctx = EnvironmentContext::new(detect_launcher(log));
        let mut i: usize = 0;
        while i < installed.len()
            invariant
                i <= installed.len(),
                ctx@.launcher == launcher_of(log@),
                ctx@.known_mods == mods_map(installed@.take(i as int)),
            decreases installed.len() - i,
        {
            proof {
                assert(installed@.take(i + 1).drop_last() =~= installed@.take(i as int));
            }
            let id = ModId(installed[i].id.0.clone());
            let metadata = ModMetadata { version: installed[i].metadata.version.clone() };
            ctx = ctx.with_mod(id, metadata);
            i += 1;
        }
        assert(installed@.take(i as int) =~= installed@);
        ctx
    }

    /// The launcher that wrote the log, if it is known.
    pub fn launcher(&self) -> (launcher: Option<Launcher>)
        ensures
            launcher == self@.launcher,
    {
        self.launcher
    }

    /// The number of known mods.
    pub fn mod_count(&self) -> (n: usize)
        ensures
            n == self@.known_mods.dom().len(),
            self@.known_mods.dom().finite(),
    {
        proof {
            use_type_invariant(self);
            lemma_mods_map_len(self.known_mods@);
        }
        self.known_mods.len()
    }

    /// Whether a mod is known under exactly this identifier.
    pub fn has_mod(&self, id: &str) -> (known: bool)
        ensures
            known == self@.known_mods.contains_key(id@),
    {
        self.find(id).is_some()
    }

    /// What is recorded of the mod with exactly this identifier.
    pub fn get_mod(&self, id: &str) -> (found: Option<&ModMetadata>)
        ensures
            match found {
                Some(m) => self@.known_mods.contains_key(id@) && self@.known_mods[id@] == m@,
                None => !self@.known_mods.contains_key(id@),
            },
    {
        match self.find(id) {
            Some(i) => {
                proof {
                    use_type_invariant(self);
                    lemma_mods_map_value(self.known_mods@, i as int);
                }
                Some(&self.known_mods[i].metadata)
            },
            None => None,
        }
    }

    /// This context with a mod recorded under `id`, in place of what was
    /// recorded under that identifier before. Every other mod stays as it
    /// was, and so does the launcher.
    pub fn with_mod(self, id: ModId, metadata: ModMetadata) -> (ctx: EnvironmentContext)
        ensures
            ctx@.launcher == self@.launcher,
            ctx@.known_mods == self@.known_mods.insert(id.0@, metadata@),
    {
        proof {
            use_type_invariant(&self);
        }
        let at = self.find(id.0.as_str());
        let launcher = self.launcher;
        let mut known_mods = self.known_mods;
        let entry = KnownMod { id, metadata };
        match at {
            Some(i) => {
                proof {
                    lemma_mods_map_update(known_mods@, i as int, entry);
                }
                known_mods.set(i, entry);
            },
            None => {
                proof {
                    let grown = known_mods@.push(entry);
                    assert(grown.drop_last() =~= known_mods@);
                    lemma_mods_map_keys(known_mods@, entry.id.0@);
                }
                known_mods.push(entry);
            },
        }
        EnvironmentContext { launcher, known_mods }
    }

    fn find(&self, id: &str) -> (at: Option<usize>)
        ensures
            match at {
                Some(i) => i < self.known_mods@.len() && self.known_mods@[i as int].id.0@ == id@,
                None => !self@.known_mods.contains_key(id@),
            },
            at is Some <==> self@.known_mods.contains_key(id@),
    {
        let mut i: usize = 0;
        while i < self.known_mods.len()
            invariant
                i <= self.known_mods@.len(),
                forall|j: int| 0 <= j < i ==> (#[trigger] self.known_mods@[j]).id.0@ != id@,
            decreases self.known_mods.len() - i,
        {
            if text_eq(self.known_mods[i].id.0.as_str(), id) {
                proof {
                    lemma_mods_map_keys(self.known_mods@, id@);
                    assert(self.known_mods@[i as int].id.0@ == id@);
                }
                return Some(i);
            }
            i += 1;
        }
        proof {
            lemma_mods_map_keys(self.known_mods@, id@);
        }
        None
    }
}

proof fn lemma_mods_map_len(mods: Seq<KnownMod>)
    requires
        distinct_ids(mods),
    ensures
        mods_map(mods).dom().finite(),
        mods_map(mods).dom().len() == mods.len(),
    decreases mods.len(),
{
    if mods.len() > 0 {
        let front = mods.drop_last();
        assert(distinct_ids(front)) by {
            assert forall|a: int, b: int| 0 <= a < b < front.len() implies (#[trigger] front[a]).id.0@
                != (#[trigger] front[b]).id.0@ by {
                assert(mods[a].id.0@ != mods[b].id.0@);
            }
        }
        lemma_mods_map_len(front);
        lemma_mods_map_keys(front, mods.last().id.0@);
        if mods_map(front).contains_key(mods.last().id.0@) {
            let i = choose|i: int| 0 <= i < front.len() && (#[trigger] front[i]).id.0@ == mods.last().id.0@;
            assert(mods[i].id.0@ != mods[mods.len() - 1].id.0@);
        }
    }
}

} // verus!
