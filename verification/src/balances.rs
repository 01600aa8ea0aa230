//! What an address holds: its unspent outputs grouped by token.

use crate::chain::{bytes_view, copy_bytes, holds, same_bytes, ScriptUtxo, HASH_LEN};
use crate::server_primitives::{JsonBalance, JsonUtxo};
use vstd::prelude::*;

verus! {

/// Why the balances of an address could not be worked out.
#[derive(Clone, Copy, Debug, PartialEq, Eq, Structural)]
pub enum BalanceError {
    /// An output carries a token whose id is not [`HASH_LEN`] bytes long.
    InvalidTokenId,
}

/// The balances of an address.
#[derive(Debug)]
pub struct AddressBalances {
    /// The satoshis on outputs that carry tokens.
    pub token_dust: i64,
    /// The satoshis on outputs that carry no token.
    pub total_xec: i64,
    /// The positions, among the address's outputs, of those that carry tokens.
    pub token_utxos: Vec<usize>,
    /// The outputs that carry no token.
    pub main: JsonBalance,
    /// The outputs that carry tokens, one balance per token, in the order
    /// in which the tokens first occur.
    pub tokens: Vec<JsonBalance>,
}

/// The token an output carries, if any.
pub open spec fn token_of(utxo: ScriptUtxo) -> Option<Seq<u8>> {
    match utxo.slpv2 {
        Some(token) => Some(token.token_id@),
        None => None,
    }
}

/// The token amount an output carries; none is zero.
pub open spec fn amount_of(utxo: ScriptUtxo) -> int {
    match utxo.slpv2 {
        Some(token) => token.amount as int,
        None => 0,
    }
}

/// The outputs among `utxos` that carry `token`, or no token where `token`
/// is `None`, in their order.
pub open spec fn holding(utxos: Seq<ScriptUtxo>, token: Option<Seq<u8>>) -> Seq<ScriptUtxo>
    decreases utxos.len(),
{
    if utxos.len() == 0 {
        Seq::empty()
    } else if token_of(utxos.last()) == token {
        holding(utxos.drop_last(), token).push(utxos.last())
    } else {
        holding(utxos.drop_last(), token)
    }
}

/// The tokens that occur among `utxos`, each once, in the order in which
/// they first occur.
pub open spec fn token_ids(utxos: Seq<ScriptUtxo>) -> Seq<Seq<u8>>
    decreases utxos.len(),
{
    if utxos.len() == 0 {
        Seq::empty()
    } else {
        let before = token_ids(utxos.drop_last());
        match token_of(utxos.last()) {
            Some(id) if !before.contains(id) => before.push(id),
            _ => before,
        }
    }
}

/// The positions of the outputs among `utxos` that carry a token.
pub open spec fn token_positions(utxos: Seq<ScriptUtxo>) -> Seq<usize>
    decreases utxos.len(),
{
    if utxos.len() == 0 {
        Seq::empty()
    } else if utxos.last().slpv2 is Some {
        token_positions(utxos.drop_last()).push((utxos.len() - 1) as usize)
    } else {
        token_positions(utxos.drop_last())
    }
}

/// The satoshis on `utxos`.
pub open spec fn total_sats(utxos: Seq<ScriptUtxo>) -> int
    decreases utxos.len(),
{
    if utxos.len() == 0 {
        0
    } else {
        total_sats(utxos.drop_last()) + utxos.last().value
    }
}

/// The satoshis on those of `utxos` that carry a token.
pub open spec fn dust_sats(utxos: Seq<ScriptUtxo>) -> int
    decreases utxos.len(),
{
    if utxos.len() == 0 {
        0
    } else {
        dust_sats(utxos.drop_last()) + (if utxos.last().slpv2 is Some {
            utxos.last().value as int
        } else {
            0
        })
    }
}

/// The token amounts on `utxos`.
pub open spec fn total_tokens(utxos: Seq<ScriptUtxo>) -> int
    decreases utxos.len(),
{
    if utxos.len() == 0 {
        0
    } else {
        total_tokens(utxos.drop_last()) + amount_of(utxos.last())
    }
}

/// Whether every token id among `utxos` has the length of a hash.
pub open spec fn token_ids_valid(utxos: Seq<ScriptUtxo>) -> bool {
    forall|i: int|
        0 <= i < utxos.len() ==> match (#[trigger] utxos[i]).slpv2 {
            Some(token) => token.token_id@.len() == HASH_LEN,
            None => true,
        }
}

/// Whether `json` shows `utxo`.
pub open spec fn shows(json: JsonUtxo, utxo: ScriptUtxo) -> bool {
    &&& json.tx_hash@ == utxo.txid@
    &&& json.out_idx == utxo.out_idx
    &&& json.sats_amount == utxo.value
    &&& json.token_amount == amount_of(utxo) as u64
    &&& json.is_coinbase == utxo.is_coinbase
    &&& json.block_height == utxo.block_height
    &&& json.is_mint_baton == (match utxo.slpv2 {
        Some(token) => token.is_mint_baton,
        None => false,
    })
}

/// Whether `shown` shows `utxos`, one for one and in order.
pub open spec fn show_all(shown: Seq<JsonUtxo>, utxos: Seq<ScriptUtxo>) -> bool {
    &&& shown.len() == utxos.len()
    &&& forall|i: int| 0 <= i < shown.len() ==> shows(#[trigger] shown[i], utxos[i])
}

/// The view of an optional token id.
pub open spec fn id_view(token: Option<Vec<u8>>) -> Option<Seq<u8>> {
    match token {
        Some(id) => Some(id@),
        None => None,
    }
}

/// Whether `balance` is the balance of `token` over the outputs `held`:
/// it names the token, shows the outputs and sums their satoshis and token
/// amounts. The sums are 64-bit and wrap where they do not fit.
pub open spec fn balance_of(
    balance: JsonBalance,
    token: Option<Seq<u8>>,
    held: Seq<ScriptUtxo>,
) -> bool {
    &&& id_view(balance.token_id) == token
    &&& balance.sats_amount == total_sats(held) as i64
    &&& balance.token_amount == total_tokens(held) as i64
    &&& show_all(balance.utxos@, held)
}

spec fn sum_bound(count: int) -> int {
    count * 0x8000_0000_0000_0000
}

fn carries(utxo: &ScriptUtxo, token: Option<&[u8]>) -> (carried: bool)
    ensures
        carried == (token_of(*utxo) == bytes_view(token)),
{
    match (&utxo.slpv2, token) {
        (Some(amount), Some(id)) => same_bytes(amount.token_id.as_slice(), id),
        (None, None) => true,
        _ => false,
    }
}

fn show(utxo: &ScriptUtxo) -> (json: JsonUtxo)
    ensures
        shows(json, *utxo),
{
    let (token_amount, is_mint_baton) = match &utxo.slpv2 {
        Some(token) => (
            #[verifier::truncate]
            (token.amount as u64),
            token.is_mint_baton,
        ),
        None => (0, false),
    };
    JsonUtxo {
        tx_hash: copy_bytes(utxo.txid.as_slice()),
        out_idx: utxo.out_idx,
        sats_amount: utxo.value,
        token_amount,
        is_coinbase: utxo.is_coinbase,
        block_height: utxo.block_height,
        is_mint_baton,
    }
}

fn cut(sum: i128) -> (cut: i64)
    ensures
        cut == sum as i64,
{
    #[verifier::truncate]
    (sum as i64)
}

/// The balance of `token` over `utxos`, or of the outputs without a token
/// where `token` is `None`.
pub fn balance_for(utxos: &Vec<ScriptUtxo>, token: Option<&[u8]>) -> (balance: JsonBalance)
    ensures
        balance_of(balance, bytes_view(token), holding(utxos@, bytes_view(token))),
{
    let ghost wanted = bytes_view(token);
    let mut sats: i128 = 0;
    let mut amount: i128 = 0;
    let mut shown: Vec<JsonUtxo> = Vec::new();
    let mut i: usize = 0;
    while i < utxos.len()
        invariant
            i <= utxos.len(),
            wanted == bytes_view(token),
            sats == total_sats(holding(utxos@.subrange(0, i as int), wanted)),
            amount == total_tokens(holding(utxos@.subrange(0, i as int), wanted)),
            show_all(shown@, holding(utxos@.subrange(0, i as int), wanted)),
            shown@.len() <= i,
            -sum_bound(shown@.len() as int) <= sats <= sum_bound(shown@.len() as int),
            -sum_bound(shown@.len() as int) <= amount <= sum_bound(shown@.len() as int),
        decreases utxos.len() - i,
    {
        let ghost before = holding(utxos@.subrange(0, i as int), wanted);
        assert(utxos@.subrange(0, i + 1).drop_last() =~= utxos@.subrange(0, i as int));
        if carries(&utxos[i], token) {
            let ghost held = before.push(utxos@[i as int]);
            assert(held.drop_last() =~= before);
            sats = sats + utxos[i].value as i128;
            match &utxos[i].slpv2 {
                Some(carried) => {
                    amount = amount + carried.amount as i128;
                },
                None => {},
            }
            shown.push(show(&utxos[i]));
        }
        i += 1;
    }
    assert(utxos@.subrange(0, i as int) =~= utxos@);
    let token_id = match token {
        Some(id) => Some(copy_bytes(id)),
        None => None,
    };
    JsonBalance { token_id, sats_amount: cut(sats), token_amount: cut(amount), utxos: shown }
}

/// Whether `ids` holds the byte strings `wanted`, one for one.
pub open spec fn ids_are(ids: Seq<Vec<u8>>, wanted: Seq<Seq<u8>>) -> bool {
    &&& ids.len() == wanted.len()
    &&& forall|k: int| 0 <= k < ids.len() ==> (#[trigger] ids[k])@ == wanted[k]
}

/// The tokens among `utxos`, each once, in the order of first occurrence;
/// an error where a token id has not the length of a hash.
pub fn distinct_token_ids(utxos: &Vec<ScriptUtxo>) -> (result: Result<Vec<Vec<u8>>, BalanceError>)
    ensures
        match result {
            Ok(ids) => token_ids_valid(utxos@) && ids_are(ids@, token_ids(utxos@)),
            Err(_) => !token_ids_valid(utxos@),
        },
{
    let mut ids: Vec<Vec<u8>> = Vec::new();
    let mut i: usize = 0;
    while i < utxos.len()
        invariant
            i <= utxos.len(),
            token_ids_valid(utxos@.subrange(0, i as int)),
            ids_are(ids@, token_ids(utxos@.subrange(0, i as int))),
        decreases utxos.len() - i,
    {
        let ghost seen = token_ids(utxos@.subrange(0, i as int));
        assert(utxos@.subrange(0, i + 1).drop_last() =~= utxos@.subrange(0, i as int));
        match &utxos[i].slpv2 {
            Some(token) => {
                if token.token_id.len() != HASH_LEN {
                    return Err(BalanceError::InvalidTokenId);
                }
                let known = holds(&ids, token.token_id.as_slice());
                proof {
                    if known {
                        let k = choose|k: int|
                            0 <= k < ids@.len() && (#[trigger] ids@[k])@ == token.token_id@;
                        assert(seen[k] == token.token_id@);
                    } else if seen.contains(token.token_id@) {
                        let k = choose|k: int| 0 <= k < seen.len() && seen[k] == token.token_id@;
                        assert(ids@[k]@ == seen[k]);
                    }
                }
                if !known {
                    ids.push(copy_bytes(token.token_id.as_slice()));
                }
            },
            None => {},
        }
        assert forall|j: int| 0 <= j < i + 1 implies match (#[trigger] utxos@.subrange(
            0,
            i + 1,
        )[j]).slpv2 {
            Some(token) => token.token_id@.len() == HASH_LEN,
            None => true,
        } by {
            if j < i {
                assert(utxos@.subrange(0, i as int)[j] == utxos@.subrange(0, i + 1)[j]);
            }
        }
        i += 1;
    }
    assert(utxos@.subrange(0, i as int) =~= utxos@);
    Ok(ids)
}

fn positions_of_token_utxos(utxos: &Vec<ScriptUtxo>) -> (positions: Vec<usize>)
    ensures
        positions@ == token_positions(utxos@),
{
    let mut positions: Vec<usize> = Vec::new();
    let mut i: usize = 0;
    while i < utxos.len()
        invariant
            i <= utxos.len(),
            positions@ == token_positions(utxos@.subrange(0, i as int)),
        decreases utxos.len() - i,
    {
        assert(utxos@.subrange(0, i + 1).drop_last() =~= utxos@.subrange(0, i as int));
        if utxos[i].slpv2.is_some() {
            positions.push(i);
        }
        i += 1;
    }
    assert(utxos@.subrange(0, i as int) =~= utxos@);
    positions
}

fn sum_dust(utxos: &Vec<ScriptUtxo>) -> (dust: i64)
    ensures
        dust == dust_sats(utxos@) as i64,
{
    let mut sum: i128 = 0;
    let mut i: usize = 0;
    while i < utxos.len()
        invariant
            i <= utxos.len(),
            sum == dust_sats(utxos@.subrange(0, i as int)),
            -sum_bound(i as int) <= sum <= sum_bound(i as int),
        decreases utxos.len() - i,
    {
        assert(utxos@.subrange(0, i + 1).drop_last() =~= utxos@.subrange(0, i as int));
        if utxos[i].slpv2.is_some() {
            sum = sum + utxos[i].value as i128;
        }
        i += 1;
    }
    assert(utxos@.subrange(0, i as int) =~= utxos@);
    cut(sum)
}

/// Groups the unspent outputs of an address by token.
///
/// The result holds one balance for the outputs without a token and one
/// for each token, in the order in which the tokens first occur among
/// `utxos`; each balance shows its outputs in their order and sums their
/// satoshis and token amounts. It fails, whatever else `utxos` holds, when
/// some output carries a token whose id has not the length of a hash.
pub fn address_balances(utxos: &Vec<ScriptUtxo>) -> (result: Result<AddressBalances, BalanceError>)
    ensures
        match result {
            Ok(balances) => {
                &&& token_ids_valid(utxos@)
                &&& balance_of(balances.main, None, holding(utxos@, None))
                &&& balances.total_xec == total_sats(holding(utxos@, None)) as i64
                &&& balances.token_dust == dust_sats(utxos@) as i64
                &&& balances.token_utxos@ == token_positions(utxos@)
                &&& balances.tokens@.len() == token_ids(utxos@).len()
                &&& forall|k: int|
                    0 <= k < balances.tokens@.len() ==> balance_of(
                        #[trigger] balances.tokens@[k],
                        Some(token_ids(utxos@)[k]),
                        holding(utxos@, Some(token_ids(utxos@)[k])),
                    )
            },
            Err(error) => error == BalanceError::InvalidTokenId && !token_ids_valid(utxos@),
        },
{
    let ids = match distinct_token_ids(utxos) {
        Ok(ids) => ids,
        Err(error) => {
            return Err(error);
        },
    };
    let main = balance_for(utxos, None);
    let mut tokens: Vec<JsonBalance> = Vec::new();
    let mut k: usize = 0;
    while k < ids.len()
        invariant
            k <= ids.len(),
            ids_are(ids@, token_ids(utxos@)),
            tokens@.len() == k,
            forall|j: int|
                0 <= j < k ==> balance_of(
                    #[trigger] tokens@[j],
                    Some(token_ids(utxos@)[j]),
                    holding(utxos@, Some(token_ids(utxos@)[j])),
                ),
        decreases ids.len() - k,
    {
        let balance = balance_for(utxos, Some(ids[k].as_slice()));
        tokens.push(balance);
        k += 1;
    }
    let total_xec = main.sats_amount;
    Ok(
        AddressBalances {
            token_dust: sum_dust(utxos),
            total_xec,
            token_utxos: positions_of_token_utxos(utxos),
            main,
            tokens,
        },
    )
}

/// The tokens of an address are listed once each, and every output that
/// carries a token finds its token in the list.
pub proof fn every_token_is_listed_once(utxos: Seq<ScriptUtxo>)
    ensures
        forall|a: int, b: int|
            0 <= a < token_ids(utxos).len() && 0 <= b < token_ids(utxos).len() && a != b
                ==> token_ids(utxos)[a] != token_ids(utxos)[b],
        forall|i: int|
            0 <= i < utxos.len() ==> match #[trigger] token_of(utxos[i]) {
                Some(id) => token_ids(utxos).contains(id),
                None => true,
            },
        forall|k: int|
            0 <= k < token_ids(utxos).len() ==> exists|i: int|
                0 <= i < utxos.len() && token_of(utxos[i]) == Some(#[trigger] token_ids(utxos)[k]),
    decreases utxos.len(),
{
    if utxos.len() > 0 {
        let rest = utxos.drop_last();
        let before = token_ids(rest);
        let ids = token_ids(utxos);
        every_token_is_listed_once(rest);
        assert forall|i: int| 0 <= i < utxos.len() implies match #[trigger] token_of(utxos[i]) {
            Some(id) => ids.contains(id),
            None => true,
        } by {
            match token_of(utxos[i]) {
                Some(id) => {
                    if i < rest.len() {
                        assert(rest[i] == utxos[i]);
                        let k = choose|k: int| 0 <= k < before.len() && before[k] == id;
                        assert(ids[k] == id);
                    } else if before.contains(id) {
                        let k = choose|k: int| 0 <= k < before.len() && before[k] == id;
                        assert(ids[k] == id);
                    } else {
                        assert(ids[before.len() as int] == id);
                    }
                },
                None => {},
            }
        }
        assert forall|k: int| 0 <= k < ids.len() implies exists|i: int|
            0 <= i < utxos.len() && token_of(utxos[i]) == Some(#[trigger] ids[k]) by {
            if k < before.len() {
                let i = choose|i: int|
                    0 <= i < rest.len() && token_of(rest[i]) == Some(before[k]);
                assert(utxos[i] == rest[i]);
            } else {
                assert(token_of(utxos[utxos.len() - 1]) == Some(ids[k]));
            }
        }
    }
}

} // verus!
