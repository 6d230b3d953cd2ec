//! The order in which the ledgers are listed.
//!
//! A listing follows the keys under which the storage holds the records,
//! compared byte by byte. For a deposit of one owner in one collection that is
//! the order of the token ids as UTF-8. For an ask it is the order of the
//! length of the collection's name, then of that name, then of the token id.

use vstd::prelude::*;
use vstd::utf8::encode_utf8;
use vstd::utf8::encode_utf8_decode_utf8;

use crate::state::key_part_fits;
use crate::state::AskKey;
use crate::state::AskView;
use crate::state::DepositView;
use crate::state::Ledger;

verus! {

/// Whether `a` comes before `b` where byte strings are compared from the
/// front, a proper prefix coming before what it is a prefix of.
pub open spec fn bytes_lt(a: Seq<u8>, b: Seq<u8>) -> bool
    decreases a.len(),
{
    if b.len() == 0 {
        false
    } else if a.len() == 0 {
        true
    } else if a[0] != b[0] {
        a[0] < b[0]
    } else {
        bytes_lt(a.skip(1), b.skip(1))
    }
}

/// The length in bytes of a key part, as the two bytes that the storage puts
/// in front of it, high byte first.
pub open spec fn length_prefix(part: Seq<char>) -> Seq<u8> {
    let n = encode_utf8(part).len();
    seq![(n / 256) as u8, (n % 256) as u8]
}

/// The bytes by which the asks are ordered.
pub open spec fn ask_key_bytes(key: AskKey) -> Seq<u8> {
    length_prefix(key.0) + encode_utf8(key.0) + encode_utf8(key.1)
}

/// Whether `listing` holds the asks of `ledger`, each with its key, each once,
/// in ascending order of their keys.
pub open spec fn lists_asks(ledger: Ledger, listing: Seq<(AskKey, AskView)>) -> bool {
    &&& forall|i: int|
        0 <= i < listing.len() ==> ledger.asks.contains_key((#[trigger] listing[i]).0)
            && ledger.asks[listing[i].0] == listing[i].1
    &&& forall|key: AskKey| #[trigger]
        ledger.asks.contains_key(key) ==> exists|i: int|
            0 <= i < listing.len() && (#[trigger] listing[i]).0 == key
    &&& forall|i: int, j: int|
        0 <= i < j < listing.len() ==> bytes_lt(
            ask_key_bytes((#[trigger] listing[i]).0),
            ask_key_bytes((#[trigger] listing[j]).0),
        )
}

/// Whether `listing` holds the deposits that `owner` has in `collection`, each
/// with its token id, each once, in ascending order of the token ids.
pub open spec fn lists_deposits(
    ledger: Ledger,
    collection: Seq<char>,
    owner: Seq<char>,
    listing: Seq<(Seq<char>, DepositView)>,
) -> bool {
    &&& forall|i: int|
        0 <= i < listing.len() ==> ledger.deposits.contains_key(
            (collection, owner, (#[trigger] listing[i]).0),
        ) && ledger.deposits[(collection, owner, listing[i].0)] == listing[i].1
    &&& forall|token_id: Seq<char>| #[trigger]
        ledger.deposits.contains_key((collection, owner, token_id)) ==> exists|i: int|
            0 <= i < listing.len() && (#[trigger] listing[i]).0 == token_id
    &&& forall|i: int, j: int|
        0 <= i < j < listing.len() ==> bytes_lt(
            encode_utf8((#[trigger] listing[i]).0),
            encode_utf8((#[trigger] listing[j]).0),
        )
}

/// No byte string comes before itself.
pub proof fn lemma_bytes_lt_irreflexive(a: Seq<u8>)
    ensures
        !bytes_lt(a, a),
    decreases a.len(),
{
    if a.len() > 0 {
        lemma_bytes_lt_irreflexive(a.skip(1));
    }
}

/// What comes before something that comes before a third comes before the
/// third.
pub proof fn lemma_bytes_lt_transitive(a: Seq<u8>, b: Seq<u8>, c: Seq<u8>)
    requires
        bytes_lt(a, b),
        bytes_lt(b, c),
    ensures
        bytes_lt(a, c),
    decreases a.len(),
{
    if a.len() > 0 && a[0] == b[0] && b[0] == c[0] {
        lemma_bytes_lt_transitive(a.skip(1), b.skip(1), c.skip(1));
    }
}

/// Of two byte strings that differ, one comes before the other.
pub proof fn lemma_bytes_lt_total(a: Seq<u8>, b: Seq<u8>)
    ensures
        a == b || bytes_lt(a, b) || bytes_lt(b, a),
    decreases a.len(),
{
    if a.len() > 0 && b.len() > 0 && a[0] == b[0] {
        lemma_bytes_lt_total(a.skip(1), b.skip(1));
        if a.skip(1) == b.skip(1) {
            assert(a =~= seq![a[0]] + a.skip(1));
            assert(b =~= seq![b[0]] + b.skip(1));
        }
    } else if a.len() == 0 && b.len() == 0 {
        assert(a =~= b);
    }
}

/// Two strings with the same UTF-8 bytes are the same string.
pub proof fn lemma_utf8_injective(first: Seq<char>, second: Seq<char>)
    requires
        encode_utf8(first) == encode_utf8(second),
    ensures
        first == second,
{
    encode_utf8_decode_utf8(first);
    encode_utf8_decode_utf8(second);
}

/// Two ask keys that the storage can hold and that are ordered by the same
/// bytes are the same key.
pub proof fn lemma_ask_key_bytes_injective(first: AskKey, second: AskKey)
    requires
        key_part_fits(first.0),
        key_part_fits(second.0),
        ask_key_bytes(first) == ask_key_bytes(second),
    ensures
        first == second,
{
    let a = ask_key_bytes(first);
    let b = ask_key_bytes(second);
    let n = encode_utf8(first.0).len() as int;
    let m = encode_utf8(second.0).len() as int;
    assert(a[0] == length_prefix(first.0)[0] && a[1] == length_prefix(first.0)[1]);
    assert(b[0] == length_prefix(second.0)[0] && b[1] == length_prefix(second.0)[1]);
    assert(n / 256 == m / 256 && n % 256 == m % 256);
    assert(n == m);
    assert(encode_utf8(first.0) =~= a.subrange(2, 2 + n));
    assert(encode_utf8(second.0) =~= b.subrange(2, 2 + m));
    assert(encode_utf8(first.1) =~= a.subrange(2 + n, a.len() as int));
    assert(encode_utf8(second.1) =~= b.subrange(2 + m, b.len() as int));
    lemma_utf8_injective(first.0, second.0);
    lemma_utf8_injective(first.1, second.1);
}

/// Of two ask keys that the storage can hold and that differ, one comes
/// before the other.
pub proof fn lemma_ask_keys_ordered(first: AskKey, second: AskKey)
    requires
        key_part_fits(first.0),
        key_part_fits(second.0),
        first != second,
    ensures
        bytes_lt(ask_key_bytes(first), ask_key_bytes(second)) || bytes_lt(
            ask_key_bytes(second),
            ask_key_bytes(first),
        ),
{
    lemma_bytes_lt_total(ask_key_bytes(first), ask_key_bytes(second));
    if ask_key_bytes(first) == ask_key_bytes(second) {
        lemma_ask_key_bytes_injective(first, second);
    }
}

/// Whether each of the byte strings comes before all that follow it.
pub open spec fn ascending(keys: Seq<Seq<u8>>) -> bool {
    forall|i: int, j: int|
        0 <= i < j < keys.len() ==> bytes_lt(#[trigger] keys[i], #[trigger] keys[j])
}

/// Whether `key` is one of `keys`.
pub open spec fn occurs(key: Seq<u8>, keys: Seq<Seq<u8>>) -> bool {
    exists|j: int| 0 <= j < keys.len() && #[trigger] keys[j] == key
}

/// Whether each of `keys` occurs among `others`.
pub open spec fn all_among(keys: Seq<Seq<u8>>, others: Seq<Seq<u8>>) -> bool {
    forall|i: int| 0 <= i < keys.len() ==> occurs(#[trigger] keys[i], others)
}

/// In an ascending sequence, two places that hold the same byte string are
/// the same place.
proof fn lemma_ascending_places(keys: Seq<Seq<u8>>, i: int, j: int)
    requires
        ascending(keys),
        0 <= i < keys.len(),
        0 <= j < keys.len(),
        keys[i] == keys[j],
    ensures
        i == j,
{
    lemma_bytes_lt_irreflexive(keys[i]);
}

/// Where each of `keys` occurs among `others` and both are ascending, the
/// entry at place `i` of `keys` occurs in `others` at place `i` or later.
proof fn lemma_place_not_earlier(keys: Seq<Seq<u8>>, others: Seq<Seq<u8>>, i: int, j: int)
    requires
        ascending(keys),
        ascending(others),
        all_among(keys, others),
        0 <= i < keys.len(),
        0 <= j < others.len(),
        others[j] == keys[i],
    ensures
        i <= j,
    decreases i,
{
    if i > 0 {
        assert(occurs(keys[i - 1], others));
        let earlier = choose|k: int| 0 <= k < others.len() && others[k] == keys[i - 1];
        lemma_place_not_earlier(keys, others, i - 1, earlier);
        assert(bytes_lt(keys[i - 1], keys[i]));
        if j <= earlier {
            if j < earlier {
                assert(bytes_lt(others[j], others[earlier]));
                lemma_bytes_lt_transitive(others[j], others[earlier], others[j]);
            }
            lemma_bytes_lt_irreflexive(others[j]);
        }
    }
}

/// Two ascending sequences that hold the same byte strings are the same
/// sequence.
pub proof fn lemma_ascending_unique(first: Seq<Seq<u8>>, second: Seq<Seq<u8>>)
    requires
        ascending(first),
        ascending(second),
        all_among(first, second),
        all_among(second, first),
    ensures
        first == second,
{
    assert forall|i: int| 0 <= i < first.len() implies i < second.len() && second[i]
        == first[i] by {
        assert(occurs(first[i], second));
        let j = choose|j: int| 0 <= j < second.len() && second[j] == first[i];
        lemma_place_not_earlier(first, second, i, j);
        assert(occurs(second[j], first));
        let back = choose|k: int| 0 <= k < first.len() && first[k] == second[j];
        lemma_place_not_earlier(second, first, j, back);
        lemma_ascending_places(first, i, back);
    }
    if second.len() > first.len() {
        let j = first.len() as int;
        assert(occurs(second[j], first));
        let i = choose|i: int| 0 <= i < first.len() && first[i] == second[j];
        lemma_place_not_earlier(second, first, j, i);
    }
    if first.len() > second.len() {
        let i = second.len() as int;
        assert(occurs(first[i], second));
        let j = choose|j: int| 0 <= j < second.len() && second[j] == first[i];
        lemma_place_not_earlier(first, second, i, j);
    }
    assert(first =~= second);
}

/// Two listings of the asks of one ledger are the same listing: what a query
/// for every ask answers is fixed by the ledger.
pub proof fn lemma_ask_listing_unique(
    ledger: Ledger,
    first: Seq<(AskKey, AskView)>,
    second: Seq<(AskKey, AskView)>,
)
    requires
        lists_asks(ledger, first),
        lists_asks(ledger, second),
    ensures
        first == second,
{
    let first_keys = Seq::new(first.len(), |i: int| ask_key_bytes(first[i].0));
    let second_keys = Seq::new(second.len(), |i: int| ask_key_bytes(second[i].0));
    assert forall|i: int| 0 <= i < first_keys.len() implies occurs(
        #[trigger] first_keys[i],
        second_keys,
    ) by {
        assert(ledger.asks.contains_key(first[i].0));
        let j = choose|j: int| 0 <= j < second.len() && (#[trigger] second[j]).0 == first[i].0;
        assert(second_keys[j] == first_keys[i]);
    }
    assert forall|j: int| 0 <= j < second_keys.len() implies occurs(
        #[trigger] second_keys[j],
        first_keys,
    ) by {
        assert(ledger.asks.contains_key(second[j].0));
        let i = choose|i: int| 0 <= i < first.len() && (#[trigger] first[i]).0 == second[j].0;
        assert(first_keys[i] == second_keys[j]);
    }
    lemma_ascending_unique(first_keys, second_keys);
    assert forall|i: int| 0 <= i < first.len() implies first[i] == second[i] by {
        assert(ledger.asks.contains_key(first[i].0));
        let j = choose|j: int| 0 <= j < second.len() && (#[trigger] second[j]).0 == first[i].0;
        assert(second_keys[j] == first_keys[i]);
        lemma_ascending_places(second_keys, i, j);
    }
    assert(first =~= second);
}

/// Two listings of the deposits of one owner in one collection are the same
/// listing: what a query for them answers is fixed by the ledger.
pub proof fn lemma_deposit_listing_unique(
    ledger: Ledger,
    collection: Seq<char>,
    owner: Seq<char>,
    first: Seq<(Seq<char>, DepositView)>,
    second: Seq<(Seq<char>, DepositView)>,
)
    requires
        lists_deposits(ledger, collection, owner, first),
        lists_deposits(ledger, collection, owner, second),
    ensures
        first == second,
{
    let first_keys = Seq::new(first.len(), |i: int| encode_utf8(first[i].0));
    let second_keys = Seq::new(second.len(), |i: int| encode_utf8(second[i].0));
    assert forall|i: int| 0 <= i < first_keys.len() implies occurs(
        #[trigger] first_keys[i],
        second_keys,
    ) by {
        assert(ledger.deposits.contains_key((collection, owner, first[i].0)));
        let j = choose|j: int| 0 <= j < second.len() && (#[trigger] second[j]).0 == first[i].0;
        assert(second_keys[j] == first_keys[i]);
    }
    assert forall|j: int| 0 <= j < second_keys.len() implies occurs(
        #[trigger] second_keys[j],
        first_keys,
    ) by {
        assert(ledger.deposits.contains_key((collection, owner, second[j].0)));
        let i = choose|i: int| 0 <= i < first.len() && (#[trigger] first[i]).0 == second[j].0;
        assert(first_keys[i] == second_keys[j]);
    }
    lemma_ascending_unique(first_keys, second_keys);
    assert forall|i: int| 0 <= i < first.len() implies first[i] == second[i] by {
        assert(ledger.deposits.contains_key((collection, owner, first[i].0)));
        let j = choose|j: int| 0 <= j < second.len() && (#[trigger] second[j]).0 == first[i].0;
        assert(second_keys[j] == first_keys[i]);
        lemma_ascending_places(second_keys, i, j);
    }
    assert(first =~= second);
}

} // verus!
