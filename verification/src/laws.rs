//! Laws of the registry, proved from the workflows' specifications.
//!
//! Each proof function states one property that holds of every input the
//! workflows accept; the pagination laws live with the pagination proofs.

use vstd::prelude::*;

use crate::contract::{
    RegView, mint_allowed, mint_state, minted_data, purchase_allowed, purchase_response,
    resolve_spec, wf_view,
};
use crate::msg::{MintMsgView, TokenResponseView};
use crate::types::{BankTransferView, CoinView};

verus! {

/// LAW. Minting twice with the same content fingerprint: the second mint is
/// refused whatever its other fields, and the fingerprint still carries
/// exactly the record of the first mint. Since a refused mint changes
/// nothing, exactly one content record for the fingerprint remains.
pub proof fn lemma_mint_same_fingerprint_twice(
    s: RegView,
    m1: MintMsgView,
    m2: MintMsgView,
    sender1: Seq<char>,
)
    requires
        wf_view(s),
        mint_allowed(s, m1),
        s.count < u64::MAX,
        m2.iscc_code == m1.iscc_code,
    ensures
        !mint_allowed(mint_state(s, m1, sender1), m2),
        mint_state(s, m1, sender1).iscc_data.dom().contains(m1.iscc_code),
        mint_state(s, m1, sender1).iscc_data[m1.iscc_code] == minted_data(m1),
{
}

/// LAW. Minting twice with the same token id and a fresh second
/// fingerprint: the second mint is refused, and no content record appears
/// for the second fingerprint — nothing dangles.
pub proof fn lemma_mint_same_token_twice(
    s: RegView,
    m1: MintMsgView,
    m2: MintMsgView,
    sender1: Seq<char>,
)
    requires
        wf_view(s),
        mint_allowed(s, m1),
        s.count < u64::MAX,
        m2.token_id == m1.token_id,
        m2.iscc_code != m1.iscc_code,
        !s.iscc_data.dom().contains(m2.iscc_code),
    ensures
        !mint_allowed(mint_state(s, m1, sender1), m2),
        !mint_state(s, m1, sender1).iscc_data.dom().contains(m2.iscc_code),
{
}

/// LAW. The payment rule, in the terms' own denomination: paying less than
/// the price is refused; paying the price or more is accepted, and the
/// transfer instruction forwards the full paid amount — not the price, and
/// no change.
pub proof fn lemma_purchase_payment_rule(
    s: RegView,
    token_id: Seq<char>,
    sender: Seq<char>,
    funds: Seq<CoinView>,
)
    requires
        s.licensing.dom().contains(token_id),
        funds.len() > 0,
        funds[0].denom == s.licensing[token_id].price.denom,
    ensures
        funds[0].amount < s.licensing[token_id].price.amount ==> !purchase_allowed(
            s,
            token_id,
            funds,
        ),
        funds[0].amount >= s.licensing[token_id].price.amount ==> purchase_allowed(
            s,
            token_id,
            funds,
        ),
        purchase_response(s, token_id, sender, funds[0]).messages =~~= seq![
            BankTransferView {
                to_address: s.tokens[token_id].owner,
                amount: seq![funds[0]],
            },
        ],
{
}

/// LAW. A payment in the wrong denomination is refused, however large its
/// amount.
pub proof fn lemma_purchase_wrong_denom(s: RegView, token_id: Seq<char>, funds: Seq<CoinView>)
    requires
        s.licensing.dom().contains(token_id),
        funds.len() > 0,
        funds[0].denom != s.licensing[token_id].price.denom,
    ensures
        !purchase_allowed(s, token_id, funds),
{
}

/// LAW. After a successful mint, resolving the minted fingerprint returns
/// the composite record round-trip intact: the token id, the caller as
/// owner, the descriptive metadata, every ISCC-derived sub-identifier, and
/// the licensing terms, exactly as the mint supplied them.
pub proof fn lemma_resolve_after_mint(s: RegView, m: MintMsgView, sender: Seq<char>)
    requires
        wf_view(s),
        mint_allowed(s, m),
        s.count < u64::MAX,
    ensures
        resolve_spec(mint_state(s, m, sender), m.iscc_code) == Some(
            TokenResponseView {
                token_id: m.token_id,
                owner: sender,
                name: m.name,
                description: Some(m.description),
                image: Some(m.image),
                meta_id: m.meta_id,
                iscc_code: m.iscc_code,
                data_id: m.data_id,
                instance_id: m.instance_id,
                tophash: m.tophash,
                license_url: m.license_url,
                license_price: m.license_price,
            },
        ),
{
    let s1 = mint_state(s, m, sender);
    assert(s1.iscc[m.iscc_code] == m.token_id);
    assert(resolve_spec(s1, m.iscc_code).unwrap() =~= (TokenResponseView {
        token_id: m.token_id,
        owner: sender,
        name: m.name,
        description: Some(m.description),
        image: Some(m.image),
        meta_id: m.meta_id,
        iscc_code: m.iscc_code,
        data_id: m.data_id,
        instance_id: m.instance_id,
        tophash: m.tophash,
        license_url: m.license_url,
        license_price: m.license_price,
    }));
}

} // verus!
