//! The questions of the game and the deck they are played from.

use crate::chance::{random_seed, seeded_shuffle, shuffle_seeded};
use vstd::pervasive::unreached;
use vstd::prelude::*;

verus! {

/// A question and its two opposing answers.
#[derive(Clone, Copy, Debug, PartialEq, Eq)]
pub struct Q {
    pub title: &'static str,
    pub left: &'static str,
    pub right: &'static str,
}

/// The number of questions in the catalog.
pub const CATALOG_LEN: usize = 20;

/// The prompts of the catalog.
pub const TITLES: [&'static str; 20] = [
    "There are 2 types of people...",
    "When the alarm goes off...",
    "Your phone battery...",
    "Texting back takes...",
    "Friday night = ...",
    "Lights on or off...",
    "Big spoon or...",
    "First date energy...",
    "Flirting style be like...",
    "When the vibe is off...",
    "Music during...",
    "Morning or night...",
    "They ate your leftovers...",
    "Netflix and...",
    "Pet names in public...",
    "Thermostat wars...",
    "Road trip roles...",
    "Saying I love you...",
    "Going to bed angry...",
    "Drunk behavior...",
];

/// The left answers of the catalog, in the order of the prompts.
pub const LEFTS: [&'static str; 20] = [
    "EARLY\nBIRD",
    "SNOOZE\nx100",
    "5%\nALWAYS",
    "3-5\nDAYS",
    "COUCH\nNETFLIX",
    "LIGHTS\nON",
    "BIG\nSPOON",
    "NERVOUS\nWRECK",
    "EYE\nCONTACT",
    "GHOST\nTHEM",
    "YES\nALWAYS",
    "SUNRISE\nENERGY",
    "WAR\nCRIME",
    "ACTUALLY\nWATCH",
    "BABY\nBABE",
    "ARCTIC\nBLAST",
    "DJ &\nNAVIGATOR",
    "EVERY\n5 MIN",
    "NEVER\nEVER",
    "CLINGY\nAF",
];

/// The right answers of the catalog, in the order of the prompts.
pub const RIGHTS: [&'static str; 20] = [
    "NIGHT\nOWL",
    "UP &\nAT EM",
    "ALWAYS\n100%",
    "INSTANT\nREPLY",
    "OUT\nTILL 4AM",
    "LIGHTS\nOFF",
    "LITTLE\nSPOON",
    "MAIN\nCHARACTER",
    "JUST\nSAY IT",
    "TALK IT\nOUT",
    "SILENCE\nIS GOLD",
    "AFTER\nDARK",
    "IT'S JUST\nFOOD",
    "WHO'S\nWATCHING",
    "FIRST\nNAME",
    "SAUNA\nMODE",
    "DRIVER\nONLY",
    "WHEN IT\nMATTERS",
    "SLEEP\nON IT",
    "SLEEPY\nQUIET",
];

/// The `i`-th question of the catalog.
pub open spec fn catalog_entry(i: int) -> Q {
    Q { title: TITLES[i], left: LEFTS[i], right: RIGHTS[i] }
}

/// The catalog: the twenty questions in the order they are listed.
pub open spec fn catalog_view() -> Seq<Q> {
    Seq::new(20, |i: int| catalog_entry(i))
}

/// The indices `0, 1, .., n - 1`.
pub open spec fn iota(n: nat) -> Seq<usize> {
    Seq::new(n, |i: int| i as usize)
}

/// Whether `order` holds each index below `n` exactly once.
pub open spec fn is_rearrangement(order: Seq<usize>, n: nat) -> bool {
    &&& order.len() == n
    &&& order.no_duplicates()
    &&& forall|i: int| 0 <= i < order.len() ==> order[i] < n
}

/// The entries taken in the given order.
pub open spec fn arrange(entries: Seq<Q>, order: Seq<usize>) -> Seq<Q> {
    Seq::new(order.len(), |i: int| entries[order[i] as int])
}

/// The order a deck of `n` questions is played in for a seed.
pub open spec fn deck_order(n: nat, seed: u64) -> Seq<usize> {
    seeded_shuffle(seed, iota(n))
}

/// The deck that a seed makes of the entries.
pub open spec fn shuffled_deck(entries: Seq<Q>, seed: u64) -> Seq<Q> {
    arrange(entries, deck_order(entries.len(), seed))
}

/// A sequence with the same elements as the indices below `n` holds each of
/// them exactly once.
pub proof fn lemma_same_items_as_iota(order: Seq<usize>, n: nat)
    requires
        n <= usize::MAX,
        order.to_multiset() == iota(n).to_multiset(),
    ensures
        is_rearrangement(order, n),
{
    let ids = iota(n);
    order.to_multiset_ensures();
    ids.to_multiset_ensures();
    assert(ids.no_duplicates());
    ids.lemma_multiset_has_no_duplicates();
    order.lemma_multiset_has_no_duplicates_conv();
    assert forall|i: int| 0 <= i < order.len() implies order[i] < n by {
        assert(order.contains(order[i]));
        assert(ids.to_multiset().count(order[i]) > 0);
        assert(ids.contains(order[i]));
    }
}

/// Taking the entries in an order that holds each position once gives the
/// same questions, each as often as before.
pub proof fn lemma_arrange_keeps_entries(entries: Seq<Q>, order: Seq<usize>)
    requires
        is_rearrangement(order, entries.len()),
    ensures
        arrange(entries, order).to_multiset() == entries.to_multiset(),
    decreases entries.len(),
{
    let deck = arrange(entries, order);
    if entries.len() == 0 {
        assert(deck =~= entries);
    } else {
        let n = entries.len() as int;
        let j = order.last() as int;
        let rest = entries.remove(j);
        let shifted = Seq::new(
            (n - 1) as nat,
            |i: int|
                if order[i] > j {
                    (order[i] - 1) as usize
                } else {
                    order[i]
                },
        );
        assert forall|i: int| 0 <= i < n - 1 implies order[i] != j by {
            assert(order[i] != order[n - 1]);
        }
        assert(shifted.no_duplicates()) by {
            assert forall|a: int, b: int|
                0 <= a < shifted.len() && 0 <= b < shifted.len() && a != b implies shifted[a]
                != shifted[b] by {
                assert(order[a] != order[b]);
            }
        }
        assert(is_rearrangement(shifted, rest.len()));
        assert(arrange(rest, shifted) =~= deck.drop_last());
        lemma_arrange_keeps_entries(rest, shifted);
        assert(deck =~= deck.drop_last().push(entries[j]));
        deck.drop_last().to_multiset_ensures();
        entries.to_multiset_ensures();
        assert(entries.contains(entries[j]));
        assert(entries.to_multiset().remove(entries[j]).insert(entries[j])
            =~= entries.to_multiset());
    }
}

/// Builds the catalog.
pub fn catalog() -> (all: Vec<Q>)
    ensures
        all@ == catalog_view(),
{
    let mut all: Vec<Q> = Vec::new();
    let mut i: usize = 0;
    while i < CATALOG_LEN
        invariant
            i <= CATALOG_LEN,
            all@.len() == i,
            forall|k: int| 0 <= k < i ==> all@[k] == catalog_entry(k),
        decreases CATALOG_LEN - i,
    {
        all.push(Q { title: TITLES[i], left: LEFTS[i], right: RIGHTS[i] });
        i += 1;
    }
    assert(all@ =~= catalog_view());
    all
}

/// The deck of a round: the questions in the order they were shuffled into.
/// A round refers to its questions by their position in the deck.
#[derive(Debug)]
pub struct Questions(pub Vec<Q>);

impl View for Questions {
    type V = Seq<Q>;

    open spec fn view(&self) -> Seq<Q> {
        self.0@
    }
}

impl Questions {
    /// Takes the entries in the given order: the deck holds, at each place,
    /// the entry whose position the order names there. An order that names a
    /// position the entries do not have gives no deck.
    pub fn arranged(entries: &Vec<Q>, order: &Vec<usize>) -> (deck: Option<Questions>)
        ensures
            deck is Some <==> forall|i: int|
                0 <= i < order@.len() ==> (#[trigger] order@[i]) < entries@.len(),
            deck matches Some(d) ==> d@ == arrange(entries@, order@),
    {
        let mut cards: Vec<Q> = Vec::new();
        let mut k: usize = 0;
        while k < order.len()
            invariant
                k <= order@.len(),
                cards@.len() == k,
                forall|j: int| 0 <= j < k ==> (#[trigger] order@[j]) < entries@.len(),
                forall|j: int| 0 <= j < k ==> cards@[j] == entries@[order@[j] as int],
            decreases order@.len() - k,
        {
            if order[k] >= entries.len() {
                return None;
            }
            cards.push(entries[order[k]]);
            k += 1;
        }
        assert(cards@ =~= arrange(entries@, order@));
        Some(Questions(cards))
    }

    /// Shuffles the entries into a deck. The order is decided by the seed
    /// alone: the same entries and the same seed give the same deck, and the
    /// deck holds the same questions as the entries, each as often.
    pub fn shuffled(entries: Vec<Q>, seed: u64) -> (deck: Questions)
        ensures
            deck@ == shuffled_deck(entries@, seed),
            is_rearrangement(deck_order(entries@.len(), seed), entries@.len()),
            deck@.len() == entries@.len(),
            deck@.to_multiset() == entries@.to_multiset(),
    {
        let n = entries.len();
        let mut order: Vec<usize> = Vec::new();
        let mut i: usize = 0;
        while i < n
            invariant
                i <= n,
                order@ == iota(i as nat),
            decreases n - i,
        {
            order.push(i);
            assert(order@ =~= iota((i + 1) as nat));
            i += 1;
        }
        shuffle_seeded(&mut order, seed);
        proof {
            lemma_same_items_as_iota(order@, n as nat);
            lemma_arrange_keeps_entries(entries@, order@);
        }
        match Questions::arranged(&entries, &order) {
            Some(deck) => deck,
            None => unreached(),
        }
    }

    /// Shuffles the deck anew, as `shuffled` does with its entries.
    pub fn reshuffled(self, seed: u64) -> (deck: Questions)
        ensures
            deck@ == shuffled_deck(self@, seed),
            deck@.len() == self@.len(),
            deck@.to_multiset() == self@.to_multiset(),
    {
        Questions::shuffled(self.0, seed)
    }

    /// The number of questions in the deck.
    pub fn len(&self) -> (n: usize)
        ensures
            n == self@.len(),
    {
        self.0.len()
    }

    /// The question at a position of the deck, if the deck is that long.
    pub fn get(&self, i: usize) -> (q: Option<Q>)
        ensures
            q == if i < self@.len() {
                Some(self@[i as int])
            } else {
                None
            },
    {
        if i < self.0.len() {
            Some(self.0[i])
        } else {
            None
        }
    }
}

impl Default for Questions {
    /// The catalog, shuffled with a seed drawn at random.
    fn default() -> (deck: Questions)
        ensures
            exists|seed: u64| deck@ == shuffled_deck(catalog_view(), seed),
            deck@.len() == 20,
            deck@.to_multiset() == catalog_view().to_multiset(),
    {
        let seed = random_seed();
        Questions::shuffled(catalog(), seed)
    }
}

} // verus!
