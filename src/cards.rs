//! The two event decks: card data, the effect each card has, and the
//! cyclic draw order.
use vstd::prelude::*;
use crate::entropy::shuffle_cards;

verus! {

/// Which of the two decks a card belongs to.
#[derive(Clone, Copy, Debug, PartialEq, Eq, Structural)]
pub enum DeckKind {
    Chance,
    CommunityChest,
}

/// What a card does when it is drawn.
#[derive(Clone, Copy, Debug, PartialEq, Eq, Structural)]
pub enum CardEffect {
    /// The drawer receives the amount from the bank.
    Collect(i32),
    /// The drawer pays the amount to the bank.
    Pay(i32),
    /// The drawer moves forward to the given tile.
    Advance(usize),
    /// The drawer moves forward to the next railroad.
    AdvanceNearestRailroad,
    /// The drawer moves forward to the next utility.
    AdvanceNearestUtility,
    /// The drawer moves back the given number of tiles.
    Back(usize),
    /// The drawer goes straight to jail.
    GoToJail,
    /// Every other player pays the drawer the amount.
    CollectFromAll(i32),
    /// The drawer pays a levy per house and per hotel owned.
    Repair { per_house: i32, per_hotel: i32 },
    /// The drawer keeps the card to leave jail later.
    GetOutOfJail,
}

/// One event card; `deck` records where it returns to once used.
#[derive(Clone, Copy, Debug)]
pub struct Card {
    pub id: u8,
    pub title: &'static str,
    pub description: &'static str,
    pub effect: CardEffect,
    pub deck: DeckKind,
}

/// Whether a card is held by the drawer rather than returned to its deck.
pub open spec fn is_keep(c: Card) -> bool {
    c.effect is GetOutOfJail
}

/// Largest amount that a card moves in one payment.
pub const CARD_AMOUNT_LIMIT: i32 = 200_000;

/// A card whose amounts are small and whose targets lie on the board.
pub open spec fn card_valid(c: Card) -> bool {
    match c.effect {
        CardEffect::Collect(a) => 0 <= a <= CARD_AMOUNT_LIMIT,
        CardEffect::Pay(a) => 0 <= a <= CARD_AMOUNT_LIMIT,
        CardEffect::CollectFromAll(a) => 0 <= a <= CARD_AMOUNT_LIMIT,
        CardEffect::Advance(t) => t < 40,
        CardEffect::Back(n) => n < 40,
        CardEffect::Repair { per_house, per_hotel } => 0 <= per_house <= CARD_AMOUNT_LIMIT && 0 <= per_hotel
            <= CARD_AMOUNT_LIMIT,
        _ => true,
    }
}

/// Every card of a sequence is valid.
pub open spec fn cards_valid(s: Seq<Card>) -> bool {
    forall|i: int| 0 <= i < s.len() ==> card_valid(#[trigger] s[i])
}

/// Number of cards in each deck.
pub const DECK_SIZE: usize = 16;

/// Effect of the card at position `i` of a freshly built chance deck.
pub open spec fn chance_effect(i: int) -> CardEffect {
    if i == 0 { CardEffect::Advance(0) }
    else if i == 1 { CardEffect::Advance(39) }
    else if i == 2 { CardEffect::Advance(26) }
    else if i == 3 { CardEffect::Advance(20) }
    else if i == 4 { CardEffect::AdvanceNearestRailroad }
    else if i == 5 { CardEffect::AdvanceNearestUtility }
    else if i == 6 { CardEffect::Collect(150_000) }
    else if i == 7 { CardEffect::Collect(100_000) }
    else if i == 8 { CardEffect::Back(3) }
    else if i == 9 { CardEffect::GoToJail }
    else if i == 10 { CardEffect::Repair { per_house: 25_000, per_hotel: 100_000 } }
    else if i == 11 { CardEffect::Pay(15_000) }
    else if i == 12 { CardEffect::Advance(25) }
    else if i == 13 { CardEffect::Advance(21) }
    else if i == 14 { CardEffect::GetOutOfJail }
    else { CardEffect::Pay(50_000) }
}

/// Effect of the card at position `i` of a freshly built community chest deck.
pub open spec fn community_chest_effect(i: int) -> CardEffect {
    if i == 0 { CardEffect::Collect(200_000) }
    else if i == 1 { CardEffect::Collect(75_000) }
    else if i == 2 { CardEffect::Collect(50_000) }
    else if i == 3 { CardEffect::Pay(50_000) }
    else if i == 4 { CardEffect::Pay(25_000) }
    else if i == 5 { CardEffect::Collect(100_000) }
    else if i == 6 { CardEffect::Collect(20_000) }
    else if i == 7 { CardEffect::CollectFromAll(10_000) }
    else if i == 8 { CardEffect::Collect(100_000) }
    else if i == 9 { CardEffect::Pay(50_000) }
    else if i == 10 { CardEffect::Collect(25_000) }
    else if i == 11 { CardEffect::GetOutOfJail }
    else if i == 12 { CardEffect::Advance(0) }
    else if i == 13 { CardEffect::GoToJail }
    else if i == 14 { CardEffect::Collect(100_000) }
    else { CardEffect::Repair { per_house: 40_000, per_hotel: 115_000 } }
}

/// Title of the card at position `i` of a freshly built chance deck.
pub open spec fn chance_title(i: int) -> &'static str {
    if i == 0 {
        "IP Semester Naik!"
    } else if i == 1 {
        "Lolos SNMPTN Kedokteran"
    } else if i == 2 {
        "Pindah ke Ilmu Komputer"
    } else if i == 3 {
        "Rapat BEM"
    } else if i == 4 {
        "Naik Bikun"
    } else if i == 5 {
        "Ke Perpustakaan"
    } else if i == 6 {
        "Dapat Beasiswa"
    } else if i == 7 {
        "Menang Lomba Karya Tulis"
    } else if i == 8 {
        "SIAK Error"
    } else if i == 9 {
        "Ketahuan Titip Absen"
    } else if i == 10 {
        "Renovasi Kosan"
    } else if i == 11 {
        "Tilang Parkir Liar"
    } else if i == 12 {
        "Maju ke Gerbang Utama"
    } else if i == 13 {
        "Maju ke Akuntansi"
    } else if i == 14 {
        "Kartu Bebas Skorsing"
    } else {
        "Bayar SPP Tambahan"
    }
}

/// Text of the card at position `i` of a freshly built chance deck.
pub open spec fn chance_description(i: int) -> &'static str {
    if i == 0 {
        "Maju ke Wisuda (GO), terima Rp 200.000"
    } else if i == 1 {
        "Maju ke Kedokteran"
    } else if i == 2 {
        "Maju ke Ilmu Komputer"
    } else if i == 3 {
        "Maju ke Pusgiwa (Free Parking)"
    } else if i == 4 {
        "Maju ke Railroad terdekat"
    } else if i == 5 {
        "Maju ke Utility terdekat"
    } else if i == 6 {
        "Terima Rp 150.000"
    } else if i == 7 {
        "Terima Rp 100.000"
    } else if i == 8 {
        "Mundur 3 langkah"
    } else if i == 9 {
        "Langsung ke Skorsing"
    } else if i == 10 {
        "Bayar Rp 25.000/Gedung, Rp 100.000/Fakultas"
    } else if i == 11 {
        "Bayar Rp 15.000"
    } else if i == 12 {
        "Maju ke Gerbang Utama"
    } else if i == 13 {
        "Maju ke Akuntansi"
    } else if i == 14 {
        "Simpan untuk keluar dari Skorsing"
    } else {
        "Bayar Rp 50.000"
    }
}

/// Title of the card at position `i` of a freshly built community chest deck.
pub open spec fn community_chest_title(i: int) -> &'static str {
    if i == 0 {
        "Dana Kemahasiswaan"
    } else if i == 1 {
        "Salah Transfer UKT"
    } else if i == 2 {
        "Ospek Selesai"
    } else if i == 3 {
        "Konsultasi ke Dokter Kampus"
    } else if i == 4 {
        "Iuran Makrab"
    } else if i == 5 {
        "Menang Lomba UI"
    } else if i == 6 {
        "Refund UKT"
    } else if i == 7 {
        "Ulang Tahun!"
    } else if i == 8 {
        "Asuransi Jatuh Tempo"
    } else if i == 9 {
        "Bayar Jas Almamater"
    } else if i == 10 {
        "Hasil Jualan Makrab"
    } else if i == 11 {
        "Kartu Bebas Skorsing"
    } else if i == 12 {
        "Langsung ke Wisuda"
    } else if i == 13 {
        "Plagiarisme Terdeteksi"
    } else if i == 14 {
        "Warisan dari Senior"
    } else {
        "Perbaikan Gedung Fakultas"
    }
}

/// Text of the card at position `i` of a freshly built community chest deck.
pub open spec fn community_chest_description(i: int) -> &'static str {
    if i == 0 {
        "Terima Rp 200.000"
    } else if i == 1 {
        "Terima Rp 75.000"
    } else if i == 2 {
        "Terima Rp 50.000"
    } else if i == 3 {
        "Bayar Rp 50.000"
    } else if i == 4 {
        "Bayar Rp 25.000"
    } else if i == 5 {
        "Terima Rp 100.000"
    } else if i == 6 {
        "Terima Rp 20.000"
    } else if i == 7 {
        "Terima Rp 10.000 dari setiap pemain"
    } else if i == 8 {
        "Terima Rp 100.000"
    } else if i == 9 {
        "Bayar Rp 50.000"
    } else if i == 10 {
        "Terima Rp 25.000"
    } else if i == 11 {
        "Simpan untuk keluar dari Skorsing"
    } else if i == 12 {
        "Maju ke Wisuda (GO)"
    } else if i == 13 {
        "Langsung ke Skorsing"
    } else if i == 14 {
        "Terima Rp 100.000"
    } else {
        "Bayar Rp 40.000/Gedung, Rp 115.000/Fakultas"
    }
}

/// A freshly built deck of `kind`, in printed order.
pub open spec fn fresh_deck(deck: Seq<Card>, kind: DeckKind) -> bool {
    &&& deck.len() == DECK_SIZE
    &&& forall|i: int|
        0 <= i < DECK_SIZE ==> {
            &&& #[trigger] deck[i].id == i + 1
            &&& deck[i].deck == kind
            &&& deck[i].effect == match kind {
                DeckKind::Chance => chance_effect(i),
                DeckKind::CommunityChest => community_chest_effect(i),
            }
            &&& deck[i].title@ == match kind {
                DeckKind::Chance => chance_title(i)@,
                DeckKind::CommunityChest => community_chest_title(i)@,
            }
            &&& deck[i].description@ == match kind {
                DeckKind::Chance => chance_description(i)@,
                DeckKind::CommunityChest => community_chest_description(i)@,
            }
        }
}

/// The deck after its top card is drawn: a kept card leaves the deck, any
/// other card goes to the bottom.
pub open spec fn deck_after_draw(deck: Seq<Card>) -> Seq<Card> {
    if deck.len() == 0 {
        deck
    } else if is_keep(deck[0]) {
        deck.drop_first()
    } else {
        deck.drop_first().push(deck[0])
    }
}

/// The deck after `n` successive draws.
pub open spec fn deck_after_draws(deck: Seq<Card>, n: nat) -> Seq<Card>
    decreases n,
{
    if n == 0 {
        deck
    } else {
        deck_after_draw(deck_after_draws(deck, (n - 1) as nat))
    }
}

/// The deck rotated left by `k` places.
pub open spec fn rotate(deck: Seq<Card>, k: int) -> Seq<Card> {
    deck.subrange(k, deck.len() as int) + deck.subrange(0, k)
}

/// Drawing, without keeping, as many cards as a deck holds brings it back to
/// its starting order; after `k` such draws it is the deck rotated by `k`.
pub proof fn lemma_draws_rotate(deck: Seq<Card>, k: nat)
    requires
        k <= deck.len(),
        forall|i: int| 0 <= i < deck.len() ==> !is_keep(#[trigger] deck[i]),
    ensures
        deck_after_draws(deck, k) =~= rotate(deck, k as int),
    decreases k,
{
    if k > 0 {
        lemma_draws_rotate(deck, (k - 1) as nat);
        let prev = rotate(deck, k - 1);
        assert(prev[0] == deck[k - 1]);
        assert(prev.drop_first().push(prev[0]) =~= rotate(deck, k as int));
    }
}

/// A full cycle of draws without keeping returns the deck unchanged.
pub proof fn lemma_full_cycle(deck: Seq<Card>)
    requires
        forall|i: int| 0 <= i < deck.len() ==> !is_keep(#[trigger] deck[i]),
    ensures
        deck_after_draws(deck, deck.len()) == deck,
{
    lemma_draws_rotate(deck, deck.len());
    assert(rotate(deck, deck.len() as int) =~= deck);
}

/// Takes the top card of `deck`; unless it is kept, it goes back under the deck.
pub fn draw_from(deck: &mut Vec<Card>) -> (r: Option<Card>)
    ensures
        final(deck)@ == deck_after_draw(old(deck)@),
        old(deck)@.len() == 0 <==> r is None,
        r matches Some(c) ==> c == old(deck)@[0],
{
    if deck.len() == 0 {
        return None;
    }
    let card = deck.remove(0);
    if !card.effect.is_get_out_of_jail() {
        deck.push(card);
    }
    Some(card)
}

impl CardEffect {
    /// Whether this is the keepable jail-release effect.
    pub fn is_get_out_of_jail(&self) -> (r: bool)
        ensures
            r == (*self is GetOutOfJail),
    {
        match self {
            CardEffect::GetOutOfJail => true,
            _ => false,
        }
    }
}

/// The chance deck in printed order.
pub fn create_chance_deck() -> (r: Vec<Card>)
    ensures
        fresh_deck(r@, DeckKind::Chance),
{
    let k = DeckKind::Chance;
    let r = vec![
        Card { id: 1, title: "IP Semester Naik!", description: "Maju ke Wisuda (GO), terima Rp 200.000", effect: CardEffect::Advance(0), deck: k },
        Card { id: 2, title: "Lolos SNMPTN Kedokteran", description: "Maju ke Kedokteran", effect: CardEffect::Advance(39), deck: k },
        Card { id: 3, title: "Pindah ke Ilmu Komputer", description: "Maju ke Ilmu Komputer", effect: CardEffect::Advance(26), deck: k },
        Card { id: 4, title: "Rapat BEM", description: "Maju ke Pusgiwa (Free Parking)", effect: CardEffect::Advance(20), deck: k },
        Card { id: 5, title: "Naik Bikun", description: "Maju ke Railroad terdekat", effect: CardEffect::AdvanceNearestRailroad, deck: k },
        Card { id: 6, title: "Ke Perpustakaan", description: "Maju ke Utility terdekat", effect: CardEffect::AdvanceNearestUtility, deck: k },
        Card { id: 7, title: "Dapat Beasiswa", description: "Terima Rp 150.000", effect: CardEffect::Collect(150_000), deck: k },
        Card { id: 8, title: "Menang Lomba Karya Tulis", description: "Terima Rp 100.000", effect: CardEffect::Collect(100_000), deck: k },
        Card { id: 9, title: "SIAK Error", description: "Mundur 3 langkah", effect: CardEffect::Back(3), deck: k },
        Card { id: 10, title: "Ketahuan Titip Absen", description: "Langsung ke Skorsing", effect: CardEffect::GoToJail, deck: k },
        Card { id: 11, title: "Renovasi Kosan", description: "Bayar Rp 25.000/Gedung, Rp 100.000/Fakultas", effect: CardEffect::Repair { per_house: 25_000, per_hotel: 100_000 }, deck: k },
        Card { id: 12, title: "Tilang Parkir Liar", description: "Bayar Rp 15.000", effect: CardEffect::Pay(15_000), deck: k },
        Card { id: 13, title: "Maju ke Gerbang Utama", description: "Maju ke Gerbang Utama", effect: CardEffect::Advance(25), deck: k },
        Card { id: 14, title: "Maju ke Akuntansi", description: "Maju ke Akuntansi", effect: CardEffect::Advance(21), deck: k },
        Card { id: 15, title: "Kartu Bebas Skorsing", description: "Simpan untuk keluar dari Skorsing", effect: CardEffect::GetOutOfJail, deck: k },
        Card { id: 16, title: "Bayar SPP Tambahan", description: "Bayar Rp 50.000", effect: CardEffect::Pay(50_000), deck: k },
    ];
    r
}

/// The community chest deck in printed order.
pub fn create_community_chest_deck() -> (r: Vec<Card>)
    ensures
        fresh_deck(r@, DeckKind::CommunityChest),
{
    let k = DeckKind::CommunityChest;
    let r = vec![
        Card { id: 1, title: "Dana Kemahasiswaan", description: "Terima Rp 200.000", effect: CardEffect::Collect(200_000), deck: k },
        Card { id: 2, title: "Salah Transfer UKT", description: "Terima Rp 75.000", effect: CardEffect::Collect(75_000), deck: k },
        Card { id: 3, title: "Ospek Selesai", description: "Terima Rp 50.000", effect: CardEffect::Collect(50_000), deck: k },
        Card { id: 4, title: "Konsultasi ke Dokter Kampus", description: "Bayar Rp 50.000", effect: CardEffect::Pay(50_000), deck: k },
        Card { id: 5, title: "Iuran Makrab", description: "Bayar Rp 25.000", effect: CardEffect::Pay(25_000), deck: k },
        Card { id: 6, title: "Menang Lomba UI", description: "Terima Rp 100.000", effect: CardEffect::Collect(100_000), deck: k },
        Card { id: 7, title: "Refund UKT", description: "Terima Rp 20.000", effect: CardEffect::Collect(20_000), deck: k },
        Card { id: 8, title: "Ulang Tahun!", description: "Terima Rp 10.000 dari setiap pemain", effect: CardEffect::CollectFromAll(10_000), deck: k },
        Card { id: 9, title: "Asuransi Jatuh Tempo", description: "Terima Rp 100.000", effect: CardEffect::Collect(100_000), deck: k },
        Card { id: 10, title: "Bayar Jas Almamater", description: "Bayar Rp 50.000", effect: CardEffect::Pay(50_000), deck: k },
        Card { id: 11, title: "Hasil Jualan Makrab", description: "Terima Rp 25.000", effect: CardEffect::Collect(25_000), deck: k },
        Card { id: 12, title: "Kartu Bebas Skorsing", description: "Simpan untuk keluar dari Skorsing", effect: CardEffect::GetOutOfJail, deck: k },
        Card { id: 13, title: "Langsung ke Wisuda", description: "Maju ke Wisuda (GO)", effect: CardEffect::Advance(0), deck: k },
        Card { id: 14, title: "Plagiarisme Terdeteksi", description: "Langsung ke Skorsing", effect: CardEffect::GoToJail, deck: k },
        Card { id: 15, title: "Warisan dari Senior", description: "Terima Rp 100.000", effect: CardEffect::Collect(100_000), deck: k },
        Card { id: 16, title: "Perbaikan Gedung Fakultas", description: "Bayar Rp 40.000/Gedung, Rp 115.000/Fakultas", effect: CardEffect::Repair { per_house: 40_000, per_hotel: 115_000 }, deck: k },
    ];
    r
}

/// Whether `deck` holds the cards of a fresh deck of `kind`, in any order.
pub open spec fn shuffled_deck(deck: Seq<Card>, kind: DeckKind) -> bool {
    exists|d: Seq<Card>| fresh_deck(d, kind) && d.to_multiset() == deck.to_multiset() && d.len() == deck.len()
}

/// A deck holds at least one card that is not kept: it never runs empty,
/// since drawing removes only kept cards.
pub open spec fn has_plain_card(deck: Seq<Card>) -> bool {
    exists|i: int| 0 <= i < deck.len() && !is_keep(#[trigger] deck[i])
}

/// Drawing keeps a card that is not kept in the deck.
pub proof fn lemma_draw_keeps_plain(deck: Seq<Card>)
    requires
        has_plain_card(deck),
    ensures
        has_plain_card(deck_after_draw(deck)),
        deck.len() > 0,
{
    let i = choose|i: int| 0 <= i < deck.len() && !is_keep(#[trigger] deck[i]);
    let t = deck_after_draw(deck);
    if is_keep(deck[0]) {
        assert(t[i - 1] == deck[i]);
    } else {
        assert(t[t.len() - 1] == deck[0]);
    }
}

/// Adding cards under a deck keeps its card that is not kept.
pub proof fn lemma_append_keeps_plain(deck: Seq<Card>, more: Seq<Card>)
    requires
        has_plain_card(deck),
    ensures
        has_plain_card(deck + more),
{
    let i = choose|i: int| 0 <= i < deck.len() && !is_keep(#[trigger] deck[i]);
    assert((deck + more)[i] == deck[i]);
}

/// The cards of a freshly built deck are valid, in any order.
pub proof fn lemma_shuffled_valid(deck: Seq<Card>, kind: DeckKind)
    requires
        shuffled_deck(deck, kind),
    ensures
        cards_valid(deck),
        has_plain_card(deck),
{
    let d = choose|d: Seq<Card>| fresh_deck(d, kind) && d.to_multiset() == deck.to_multiset() && d.len() == deck.len();
    assert(has_plain_card(deck)) by {
        deck.to_multiset_ensures();
        d.to_multiset_ensures();
        assert(d[0].id == 1);
        assert(d.contains(d[0]));
        assert(d.to_multiset().count(d[0]) > 0);
        assert(deck.to_multiset().count(d[0]) > 0);
        assert(deck.contains(d[0]));
        let i = choose|i: int| 0 <= i < deck.len() && deck[i] == d[0];
        assert(!is_keep(deck[i]));
    }
    assert forall|i: int| 0 <= i < deck.len() implies card_valid(#[trigger] deck[i]) by {
        deck.to_multiset_ensures();
        d.to_multiset_ensures();
        assert(deck.contains(deck[i]));
        assert(deck.to_multiset().count(deck[i]) > 0);
        assert(d.to_multiset().count(deck[i]) > 0);
        assert(d.contains(deck[i]));
        let j = choose|j: int| 0 <= j < d.len() && d[j] == deck[i];
        assert(d[j].id == j + 1);
    }
}

/// Both decks, freshly built and shuffled.
pub fn initialize_decks() -> (r: (Vec<Card>, Vec<Card>))
    ensures
        shuffled_deck(r.0@, DeckKind::Chance),
        shuffled_deck(r.1@, DeckKind::CommunityChest),
{
    let mut chance = create_chance_deck();
    let mut community_chest = create_community_chest_deck();
    let ghost c0 = chance@;
    let ghost k0 = community_chest@;
    shuffle_cards(&mut chance);
    shuffle_cards(&mut community_chest);
    assert(fresh_deck(c0, DeckKind::Chance));
    assert(fresh_deck(k0, DeckKind::CommunityChest));
    (chance, community_chest)
}

} // verus!
