//! The registry's workflows: instantiation, minting, license purchase, the
//! ownership capability interface, and the read-only queries.

use vstd::prelude::*;

use crate::enumeration::sorted_keys;
use crate::error::RegistryError;
use crate::msg::{
    AllNftInfoResponse, ApprovedForAllResponse, ContractInfoResponse, ExecuteMsg, InstantiateMsg,
    MintMsg, MintMsgView, NftInfoResponse, NftInfoResponseView, NumTokensResponse, OwnerOfResponse,
    OwnerOfResponseView, QueryAnswer, QueryMsg, TokenResponse, TokenResponseView, TokensResponse,
};
use crate::order::views_of;
use crate::pagination::{
    eff_limit, entry_views, opt_string_view, opt_view, page_ids, page_operators, spec_eff_limit,
    spec_page, spec_page_operators,
};
use crate::state::{IsccData, IsccDataView, License, LicenseView, Licensing, LicensingView};
use crate::store::{
    Store, contract_info_of, iscc_data_of, iscc_of, licenses_of, licensing_of, operators_of,
    token_count_of, tokens_of,
};
use crate::types::{
    ApprovalRecord, ApprovalView, Attribute, AttributeView, BankTransfer, BankTransferView,
    BlockInfo, Coin, CoinView, Expiry, Response, ResponseView, TokenRecord, TokenView, coin_views,
    spec_expired,
};

verus! {

/// The whole registry state, as mathematics: one map per table, the token
/// counter, and the contract metadata.
#[verifier::ext_equal]
pub struct RegView {
    pub tokens: Map<Seq<char>, TokenView>,
    pub iscc: Map<Seq<char>, Seq<char>>,
    pub iscc_data: Map<Seq<char>, IsccDataView>,
    pub licensing: Map<Seq<char>, LicensingView>,
    pub licenses: Map<(Seq<char>, Seq<char>), LicenseView>,
    pub operators: Map<(Seq<char>, Seq<char>), Expiry>,
    pub count: u64,
    pub info: Option<(Seq<char>, Seq<char>)>,
}

/// The registry: every table, behind one store handle.
pub struct Registry {
    pub store: Store,
}

impl View for Registry {
    type V = RegView;

    open spec fn view(&self) -> RegView {
        RegView {
            tokens: tokens_of(self.store),
            iscc: iscc_of(self.store),
            iscc_data: iscc_data_of(self.store),
            licensing: licensing_of(self.store),
            licenses: licenses_of(self.store),
            operators: operators_of(self.store),
            count: token_count_of(self.store),
            info: contract_info_of(self.store),
        }
    }
}

/// Consistency of the co-indexed tables. Minting keeps all of it:
/// the counter counts the tokens; every fingerprint link points at an
/// existing token, injectively; fingerprints carry matching ISCC data;
/// tokens and licensing terms exist for exactly the same ids; and every
/// license names a licensed token and its own key pair.
pub open spec fn wf_view(s: RegView) -> bool {
    &&& s.tokens.dom().finite()
    &&& s.count as nat == s.tokens.dom().len()
    &&& forall|f: Seq<char>| #[trigger] s.iscc.dom().contains(f)
        ==> s.tokens.dom().contains(s.iscc[f])
    &&& s.iscc_data.dom() == s.iscc.dom()
    &&& forall|f: Seq<char>| #[trigger] s.iscc.dom().contains(f)
        ==> s.iscc_data[f].token_id == s.iscc[f] && s.iscc_data[f].iscc_code == f
    &&& s.licensing.dom() == s.tokens.dom()
    &&& forall|t: Seq<char>| #[trigger] s.licensing.dom().contains(t)
        ==> s.licensing[t].token_id == t
    &&& forall|p: (Seq<char>, Seq<char>)| #[trigger] s.licenses.dom().contains(p)
        ==> s.licensing.dom().contains(p.1)
            && s.licenses[p].token_id == p.1 && s.licenses[p].licensee == p.0
    &&& forall|f1: Seq<char>, f2: Seq<char>|
        s.iscc.dom().contains(f1) && s.iscc.dom().contains(f2)
            && #[trigger] s.iscc[f1] == #[trigger] s.iscc[f2] ==> f1 == f2
}

/// A registry holding nothing at all.
pub open spec fn empty_view(s: RegView) -> bool {
    &&& s.tokens == Map::<Seq<char>, TokenView>::empty()
    &&& s.iscc == Map::<Seq<char>, Seq<char>>::empty()
    &&& s.iscc_data == Map::<Seq<char>, IsccDataView>::empty()
    &&& s.licensing == Map::<Seq<char>, LicensingView>::empty()
    &&& s.licenses == Map::<(Seq<char>, Seq<char>), LicenseView>::empty()
    &&& s.operators == Map::<(Seq<char>, Seq<char>), Expiry>::empty()
    &&& s.count == 0u64
    &&& s.info.is_none()
}

impl Registry {
    /// The registry's well-formedness invariant; constructors establish it
    /// and every workflow preserves it.
    pub open spec fn wf(self) -> bool {
        wf_view(self@)
    }

    /// A fresh, empty registry.
    pub fn new() -> (r: Registry)
        ensures
            r.wf(),
            empty_view(r@),
    {
        let r = Registry { store: Store::new() };
        proof {
            assert(r@.tokens.dom() =~= Set::<Seq<char>>::empty());
        }
        r
    }
}

/// A mint is accepted exactly when both its token id and its content
/// fingerprint are unclaimed.
pub open spec fn mint_allowed(s: RegView, m: MintMsgView) -> bool {
    !s.tokens.dom().contains(m.token_id) && !s.iscc.dom().contains(m.iscc_code)
}

/// The token record a mint creates: the caller owns it, with no approvals.
pub open spec fn minted_token(m: MintMsgView, sender: Seq<char>) -> TokenView {
    TokenView {
        owner: sender,
        name: m.name,
        description: m.description,
        image: Some(m.image),
        approvals: Seq::empty(),
    }
}

/// The content record a mint creates.
pub open spec fn minted_data(m: MintMsgView) -> IsccDataView {
    IsccDataView {
        token_id: m.token_id,
        iscc_code: m.iscc_code,
        meta_id: m.meta_id,
        data_id: m.data_id,
        instance_id: m.instance_id,
        tophash: m.tophash,
    }
}

/// The licensing terms a mint creates.
pub open spec fn minted_terms(m: MintMsgView) -> LicensingView {
    LicensingView { token_id: m.token_id, url: m.license_url, price: m.license_price }
}

/// The registry state after a successful mint: all four records created
/// together, and the counter advanced.
pub open spec fn mint_state(s: RegView, m: MintMsgView, sender: Seq<char>) -> RegView {
    RegView {
        tokens: s.tokens.insert(m.token_id, minted_token(m, sender)),
        iscc: s.iscc.insert(m.iscc_code, m.token_id),
        iscc_data: s.iscc_data.insert(m.iscc_code, minted_data(m)),
        licensing: s.licensing.insert(m.token_id, minted_terms(m)),
        count: (s.count + 1) as u64,
        ..s
    }
}

/// The event a successful mint emits.
pub open spec fn mint_attributes(m: MintMsgView) -> Seq<AttributeView> {
    seq![
        AttributeView { key: "action"@, value: "mint"@ },
        AttributeView { key: "token_id"@, value: m.token_id },
        AttributeView { key: "name"@, value: m.name },
        AttributeView { key: "iscc_code"@, value: m.iscc_code },
        AttributeView { key: "owner"@, value: m.owner },
    ]
}

/// Minting from a well-formed state keeps every invariant.
pub proof fn lemma_mint_preserves_wf(s: RegView, m: MintMsgView, sender: Seq<char>)
    requires
        wf_view(s),
        mint_allowed(s, m),
        s.count < u64::MAX,
    ensures
        wf_view(mint_state(s, m, sender)),
{
    let s2 = mint_state(s, m, sender);
    vstd::set::axiom_set_insert_len(s.tokens.dom(), m.token_id);
    assert(s2.tokens.dom() =~= s.tokens.dom().insert(m.token_id));
    assert(s2.iscc_data.dom() =~= s2.iscc.dom());
    assert(s2.licensing.dom() =~= s2.tokens.dom());
    assert forall|f: Seq<char>| #[trigger] s2.iscc.dom().contains(f)
        implies s2.tokens.dom().contains(s2.iscc[f]) by {
        if f != m.iscc_code {
            assert(s.iscc.dom().contains(f));
        }
    }
    assert forall|f1: Seq<char>, f2: Seq<char>|
        s2.iscc.dom().contains(f1) && s2.iscc.dom().contains(f2)
            && #[trigger] s2.iscc[f1] == #[trigger] s2.iscc[f2] implies f1 == f2 by {
        if f1 != m.iscc_code && f2 != m.iscc_code {
            assert(s.iscc[f1] == s.iscc[f2]);
        } else if f1 == m.iscc_code && f2 != m.iscc_code {
            assert(s.tokens.dom().contains(s.iscc[f2]));
        } else if f1 != m.iscc_code && f2 == m.iscc_code {
            assert(s.tokens.dom().contains(s.iscc[f1]));
        }
    }
}

/// Records the content-licensed token: creates the token record, links the
/// fingerprint, stores the ISCC data and the licensing terms — all or
/// nothing. Fails with `AlreadyExists` when the token id or the fingerprint
/// is already claimed, changing nothing.
pub fn execute_mint(reg: &mut Registry, sender: String, msg: MintMsg) -> (r: Result<
    Response,
    RegistryError,
>)
    requires
        old(reg).wf(),
        old(reg)@.count < u64::MAX,
    ensures
        final(reg).wf(),
        match r {
            Ok(resp) => mint_allowed(old(reg)@, msg@)
                && final(reg)@ == mint_state(old(reg)@, msg@, sender@)
                && resp@.messages.len() == 0
                && resp@.attributes == mint_attributes(msg@),
            Err(e) => !mint_allowed(old(reg)@, msg@)
                && final(reg)@ == old(reg)@
                && (e matches RegistryError::AlreadyExists { id }
                    && id@ == (if old(reg)@.tokens.dom().contains(msg@.token_id) {
                        msg@.token_id
                    } else {
                        msg@.iscc_code
                    })),
        },
{
    let ghost s0 = reg@;
    let ghost sv = sender@;
    if reg.store.token_load(&msg.token_id).is_some() {
        return Err(RegistryError::AlreadyExists { id: msg.token_id });
    }
    if reg.store.iscc_load(&msg.iscc_code).is_some() {
        return Err(RegistryError::AlreadyExists { id: msg.iscc_code });
    }
    proof {
        lemma_mint_preserves_wf(s0, msg@, sender@);
    }
    let token = TokenRecord {
        owner: sender,
        name: msg.name.clone(),
        description: msg.description.clone(),
        image: Some(msg.image.clone()),
        approvals: Vec::new(),
    };
    proof {
        assert(token@.approvals =~= Seq::<crate::types::ApprovalView>::empty());
        assert(token@ =~= minted_token(msg@, token.owner@));
    }
    reg.store.token_save(&msg.token_id, &token);
    reg.store.count_increment();
    let data = IsccData {
        token_id: msg.token_id.clone(),
        iscc_code: msg.iscc_code.clone(),
        meta_id: msg.meta_id.clone(),
        data_id: msg.data_id.clone(),
        instance_id: msg.instance_id.clone(),
        tophash: msg.tophash.clone(),
    };
    reg.store.iscc_data_save(&msg.iscc_code, &data);
    reg.store.iscc_save(&msg.iscc_code, &msg.token_id);
    let terms = Licensing {
        token_id: msg.token_id.clone(),
        url: msg.license_url.clone(),
        price: msg.license_price.dup(),
    };
    reg.store.licensing_save(&msg.token_id, &terms);
    let mut attributes: Vec<Attribute> = Vec::new();
    attributes.push(Attribute { key: "action".to_owned(), value: "mint".to_owned() });
    attributes.push(Attribute { key: "token_id".to_owned(), value: msg.token_id.clone() });
    attributes.push(Attribute { key: "name".to_owned(), value: msg.name.clone() });
    attributes.push(Attribute { key: "iscc_code".to_owned(), value: msg.iscc_code.clone() });
    attributes.push(Attribute { key: "owner".to_owned(), value: msg.owner.clone() });
    let resp = Response { messages: Vec::new(), attributes };
    proof {
        assert(resp@.messages =~= Seq::<crate::types::BankTransferView>::empty());
        assert(resp@.attributes =~= mint_attributes(msg@));
        assert(reg@ =~= mint_state(s0, msg@, sv));
    }
    Ok(resp)
}

/// The payment rule: exactly the first coin sent is inspected; it must be
/// of the terms' denomination and at least the terms' amount. Sending no
/// funds at all fails the rule.
pub open spec fn payment_ok(terms: LicensingView, funds: Seq<CoinView>) -> bool {
    funds.len() > 0 && funds[0].denom == terms.price.denom && funds[0].amount
        >= terms.price.amount
}

/// A purchase is accepted exactly when the token has licensing terms and
/// the funds sent satisfy the payment rule.
pub open spec fn purchase_allowed(s: RegView, token_id: Seq<char>, funds: Seq<CoinView>) -> bool {
    s.licensing.dom().contains(token_id) && payment_ok(s.licensing[token_id], funds)
}

/// The registry state after a successful purchase: the (licensee, token)
/// entitlement records the coin actually paid; nothing else changes.
pub open spec fn purchase_state(
    s: RegView,
    token_id: Seq<char>,
    sender: Seq<char>,
    paid: CoinView,
) -> RegView {
    RegView {
        licenses: s.licenses.insert(
            (sender, token_id),
            LicenseView { token_id: token_id, licensee: sender, price: paid },
        ),
        ..s
    }
}

/// The response of a successful purchase: one transfer of the full paid
/// coin to the token's current owner, and the purchase event.
pub open spec fn purchase_response(
    s: RegView,
    token_id: Seq<char>,
    sender: Seq<char>,
    paid: CoinView,
) -> ResponseView {
    ResponseView {
        messages: seq![
            BankTransferView { to_address: s.tokens[token_id].owner, amount: seq![paid] },
        ],
        attributes: seq![
            AttributeView { key: "action"@, value: "license"@ },
            AttributeView { key: "token_id"@, value: token_id },
            AttributeView { key: "price"@, value: crate::decimal::spec_dec(paid.amount as nat) },
            AttributeView { key: "licensee"@, value: sender },
        ],
    }
}

/// Buys a license for `token_id` with the funds sent. Loads the terms
/// (`NotFound` when the token was never minted with terms), validates the
/// first coin sent against them (`Unauthorized` on mismatch or
/// insufficiency, including no funds at all), then forwards the full paid
/// coin to the token's current owner and records the entitlement — the last
/// purchase of the same pair wins. Overpayment is accepted in full; no
/// change is returned.
pub fn execute_licensing(
    reg: &mut Registry,
    sender: String,
    funds: Vec<Coin>,
    token_id: String,
) -> (r: Result<Response, RegistryError>)
    requires
        old(reg).wf(),
    ensures
        final(reg).wf(),
        match r {
            Ok(resp) => purchase_allowed(old(reg)@, token_id@, coin_views(funds@))
                && final(reg)@ == purchase_state(old(reg)@, token_id@, sender@, funds@[0]@)
                && resp@ == purchase_response(old(reg)@, token_id@, sender@, funds@[0]@),
            Err(e) => final(reg)@ == old(reg)@ && !purchase_allowed(
                old(reg)@,
                token_id@,
                coin_views(funds@),
            ) && match e {
                RegistryError::NotFound { id } => !old(reg)@.licensing.dom().contains(token_id@)
                    && id@ == token_id@,
                RegistryError::Unauthorized => old(reg)@.licensing.dom().contains(token_id@)
                    && !payment_ok(old(reg)@.licensing[token_id@], coin_views(funds@)),
                RegistryError::AlreadyExists { .. } => false,
            },
        },
{
    let ghost s0 = reg@;
    let ghost sv = sender@;
    let ghost tv = token_id@;
    let terms = match reg.store.licensing_load(&token_id) {
        Some(t) => t,
        None => {
            return Err(RegistryError::NotFound { id: token_id });
        },
    };
    if funds.len() == 0 {
        return Err(RegistryError::Unauthorized);
    }
    let paid = &funds[0];
    if !(paid.denom == terms.price.denom) || paid.amount < terms.price.amount {
        return Err(RegistryError::Unauthorized);
    }
    let token = match reg.store.token_load(&token_id) {
        Some(t) => t,
        None => {
            // Unreachable: well-formedness ties licensing terms to tokens.
            return Err(RegistryError::NotFound { id: token_id });
        },
    };
    let mut amount: Vec<Coin> = Vec::new();
    amount.push(paid.dup());
    let transfer = BankTransfer { to_address: token.owner, amount };
    let license = License {
        token_id: token_id.clone(),
        licensee: sender.clone(),
        price: paid.dup(),
    };
    reg.store.license_save(&license);
    let mut messages: Vec<BankTransfer> = Vec::new();
    messages.push(transfer);
    let mut attributes: Vec<Attribute> = Vec::new();
    attributes.push(Attribute { key: "action".to_owned(), value: "license".to_owned() });
    attributes.push(Attribute { key: "token_id".to_owned(), value: token_id });
    attributes.push(
        Attribute { key: "price".to_owned(), value: crate::decimal::format_u128(paid.amount) },
    );
    attributes.push(Attribute { key: "licensee".to_owned(), value: sender });
    let resp = Response { messages, attributes };
    proof {
        assert(reg@ =~= purchase_state(s0, tv, sv, funds@[0]@));
        assert(resp@ =~~= purchase_response(s0, tv, sv, funds@[0]@));
    }
    Ok(resp)
}

/// `aps` with every approval of `spender` removed, order kept.
pub open spec fn approvals_without(aps: Seq<ApprovalView>, spender: Seq<char>) -> Seq<ApprovalView>
    decreases aps.len(),
{
    if aps.len() == 0 {
        Seq::empty()
    } else if aps.first().spender == spender {
        approvals_without(aps.drop_first(), spender)
    } else {
        seq![aps.first()] + approvals_without(aps.drop_first(), spender)
    }
}

/// The approvals of `aps` without `spender`, executably.
fn approvals_removing(aps: &Vec<ApprovalRecord>, spender: &String) -> (r: Vec<ApprovalRecord>)
    ensures
        r@.map_values(|a: ApprovalRecord| a@)
            == approvals_without(aps@.map_values(|a: ApprovalRecord| a@), spender@),
{
    let ghost all = aps@.map_values(|a: ApprovalRecord| a@);
    let mut out: Vec<ApprovalRecord> = Vec::new();
    let mut i: usize = 0;
    proof {
        assert(all.skip(0) =~= all);
        assert(out@.map_values(|a: ApprovalRecord| a@) =~= Seq::<ApprovalView>::empty());
    }
    while i < aps.len()
        invariant
            0 <= i <= aps.len(),
            all == aps@.map_values(|a: ApprovalRecord| a@),
            out@.map_values(|a: ApprovalRecord| a@) + approvals_without(all.skip(i as int), spender@)
                =~= approvals_without(all, spender@),
        decreases aps.len() - i,
    {
        let ghost rest = all.skip(i as int);
        proof {
            assert(rest.len() > 0);
            assert(rest.first() == all[i as int]);
            assert(rest.drop_first() =~= all.skip(i as int + 1));
        }
        if !(aps[i].spender == *spender) {
            let ghost before = out@.map_values(|a: ApprovalRecord| a@);
            out.push(aps[i].dup());
            proof {
                assert(out@.map_values(|a: ApprovalRecord| a@)
                    =~= before + seq![all[i as int]]);
            }
        }
        i += 1;
    }
    proof {
        assert(all.skip(aps@.len() as int).len() == 0);
        assert(out@.map_values(|a: ApprovalRecord| a@) =~= approvals_without(all, spender@));
    }
    out
}

/// The token table after the owner-or-approvals change `f` on `token_id`.
pub open spec fn token_updated(s: RegView, token_id: Seq<char>, t: TokenView) -> RegView {
    RegView { tokens: s.tokens.insert(token_id, t), ..s }
}

/// A change that only rewrites an existing token's record keeps every
/// invariant: the token tables' keys do not move.
proof fn lemma_token_update_preserves_wf(s: RegView, token_id: Seq<char>, t: TokenView)
    requires
        wf_view(s),
        s.tokens.dom().contains(token_id),
    ensures
        wf_view(token_updated(s, token_id, t)),
{
    let s2 = token_updated(s, token_id, t);
    assert(s2.tokens.dom() =~= s.tokens.dom());
}

/// The record after a transfer: the recipient owns it, approvals cleared,
/// metadata untouched.
pub open spec fn transferred_token(t: TokenView, recipient: Seq<char>) -> TokenView {
    TokenView { owner: recipient, approvals: Seq::empty(), ..t }
}

/// The event of an ownership move.
pub open spec fn transfer_attributes(
    action: Seq<char>,
    sender: Seq<char>,
    recipient: Seq<char>,
    token_id: Seq<char>,
) -> Seq<AttributeView> {
    seq![
        AttributeView { key: "action"@, value: action },
        AttributeView { key: "sender"@, value: sender },
        AttributeView { key: "recipient"@, value: recipient },
        AttributeView { key: "token_id"@, value: token_id },
    ]
}

/// Moves a token to `recipient` and clears its approvals, as the external
/// ownership module directs. Authorization (owner, approvals, operators)
/// is that module's concern, not checked here.
pub fn execute_transfer_nft(
    reg: &mut Registry,
    sender: String,
    recipient: String,
    token_id: String,
) -> (r: Result<Response, RegistryError>)
    requires
        old(reg).wf(),
    ensures
        final(reg).wf(),
        match r {
            Ok(resp) => old(reg)@.tokens.dom().contains(token_id@)
                && final(reg)@ == token_updated(
                    old(reg)@,
                    token_id@,
                    transferred_token(old(reg)@.tokens[token_id@], recipient@),
                )
                && resp@.messages.len() == 0
                && resp@.attributes == transfer_attributes("transfer_nft"@, sender@, recipient@, token_id@),
            Err(e) => !old(reg)@.tokens.dom().contains(token_id@)
                && final(reg)@ == old(reg)@
                && (e matches RegistryError::NotFound { id } && id@ == token_id@),
        },
{
    let ghost s0 = reg@;
    let ghost sv = sender@;
    let ghost rv = recipient@;
    let ghost tv = token_id@;
    let token = match reg.store.token_load(&token_id) {
        Some(t) => t,
        None => {
            return Err(RegistryError::NotFound { id: token_id });
        },
    };
    proof {
        lemma_token_update_preserves_wf(
            s0,
            token_id@,
            transferred_token(s0.tokens[token_id@], recipient@),
        );
    }
    let moved = TokenRecord {
        owner: recipient.clone(),
        name: token.name,
        description: token.description,
        image: token.image,
        approvals: Vec::new(),
    };
    proof {
        assert(moved@.approvals =~= Seq::<crate::types::ApprovalView>::empty());
        assert(moved@ =~= transferred_token(s0.tokens[token_id@], recipient@));
    }
    reg.store.token_save(&token_id, &moved);
    let mut attributes: Vec<Attribute> = Vec::new();
    attributes.push(Attribute { key: "action".to_owned(), value: "transfer_nft".to_owned() });
    attributes.push(Attribute { key: "sender".to_owned(), value: sender });
    attributes.push(Attribute { key: "recipient".to_owned(), value: recipient });
    attributes.push(Attribute { key: "token_id".to_owned(), value: token_id });
    let resp = Response { messages: Vec::new(), attributes };
    proof {
        assert(reg@ =~= token_updated(s0, tv, transferred_token(s0.tokens[tv], rv)));
        assert(resp@.messages =~= Seq::<crate::types::BankTransferView>::empty());
        assert(resp@.attributes =~= transfer_attributes("transfer_nft"@, sv, rv, tv));
    }
    Ok(resp)
}

/// Moves a token to a contract account; the state change equals a
/// transfer. The host-side callback that hands the payload to the receiving
/// contract is the execution host's concern and carries no registry state.
pub fn execute_send_nft(
    reg: &mut Registry,
    sender: String,
    contract: String,
    token_id: String,
) -> (r: Result<Response, RegistryError>)
    requires
        old(reg).wf(),
    ensures
        final(reg).wf(),
        match r {
            Ok(resp) => old(reg)@.tokens.dom().contains(token_id@)
                && final(reg)@ == token_updated(
                    old(reg)@,
                    token_id@,
                    transferred_token(old(reg)@.tokens[token_id@], contract@),
                )
                && resp@.messages.len() == 0
                && resp@.attributes == transfer_attributes("send_nft"@, sender@, contract@, token_id@),
            Err(e) => !old(reg)@.tokens.dom().contains(token_id@)
                && final(reg)@ == old(reg)@
                && (e matches RegistryError::NotFound { id } && id@ == token_id@),
        },
{
    let ghost s0 = reg@;
    let ghost sv = sender@;
    let ghost rv = contract@;
    let ghost tv = token_id@;
    let token = match reg.store.token_load(&token_id) {
        Some(t) => t,
        None => {
            return Err(RegistryError::NotFound { id: token_id });
        },
    };
    proof {
        lemma_token_update_preserves_wf(
            s0,
            token_id@,
            transferred_token(s0.tokens[token_id@], contract@),
        );
    }
    let moved = TokenRecord {
        owner: contract.clone(),
        name: token.name,
        description: token.description,
        image: token.image,
        approvals: Vec::new(),
    };
    proof {
        assert(moved@.approvals =~= Seq::<crate::types::ApprovalView>::empty());
        assert(moved@ =~= transferred_token(s0.tokens[token_id@], contract@));
    }
    reg.store.token_save(&token_id, &moved);
    let mut attributes: Vec<Attribute> = Vec::new();
    attributes.push(Attribute { key: "action".to_owned(), value: "send_nft".to_owned() });
    attributes.push(Attribute { key: "sender".to_owned(), value: sender });
    attributes.push(Attribute { key: "recipient".to_owned(), value: contract });
    attributes.push(Attribute { key: "token_id".to_owned(), value: token_id });
    let resp = Response { messages: Vec::new(), attributes };
    proof {
        assert(reg@ =~= token_updated(s0, tv, transferred_token(s0.tokens[tv], rv)));
        assert(resp@.messages =~= Seq::<crate::types::BankTransferView>::empty());
        assert(resp@.attributes =~= transfer_attributes("send_nft"@, sv, rv, tv));
    }
    Ok(resp)
}

/// The record after granting `spender` an approval: any earlier approval of
/// the same spender is replaced, everything else kept.
pub open spec fn approved_token(t: TokenView, spender: Seq<char>, exp: Expiry) -> TokenView {
    TokenView {
        approvals: approvals_without(t.approvals, spender).push(
            ApprovalView { spender: spender, expires: exp },
        ),
        ..t
    }
}

/// The record after revoking `spender`'s approvals.
pub open spec fn revoked_token(t: TokenView, spender: Seq<char>) -> TokenView {
    TokenView { approvals: approvals_without(t.approvals, spender), ..t }
}

/// The event of an approval change on one token.
pub open spec fn approval_attributes(
    action: Seq<char>,
    sender: Seq<char>,
    spender: Seq<char>,
    token_id: Seq<char>,
) -> Seq<AttributeView> {
    seq![
        AttributeView { key: "action"@, value: action },
        AttributeView { key: "sender"@, value: sender },
        AttributeView { key: "spender"@, value: spender },
        AttributeView { key: "token_id"@, value: token_id },
    ]
}

/// Grants `spender` an approval on `token_id`, expiring as given (never,
/// when not given), as the external ownership module directs.
pub fn execute_approve(
    reg: &mut Registry,
    sender: String,
    spender: String,
    token_id: String,
    expires: Option<Expiry>,
) -> (r: Result<Response, RegistryError>)
    requires
        old(reg).wf(),
    ensures
        final(reg).wf(),
        match r {
            Ok(resp) => old(reg)@.tokens.dom().contains(token_id@)
                && final(reg)@ == token_updated(
                    old(reg)@,
                    token_id@,
                    approved_token(
                        old(reg)@.tokens[token_id@],
                        spender@,
                        match expires {
                            Some(e) => e,
                            None => Expiry::Never,
                        },
                    ),
                )
                && resp@.messages.len() == 0
                && resp@.attributes == approval_attributes("approve"@, sender@, spender@, token_id@),
            Err(e) => !old(reg)@.tokens.dom().contains(token_id@)
                && final(reg)@ == old(reg)@
                && (e matches RegistryError::NotFound { id } && id@ == token_id@),
        },
{
    let ghost s0 = reg@;
    let ghost sv = sender@;
    let ghost pv = spender@;
    let ghost tv = token_id@;
    let token = match reg.store.token_load(&token_id) {
        Some(t) => t,
        None => {
            return Err(RegistryError::NotFound { id: token_id });
        },
    };
    let exp = match expires {
        Some(e) => e,
        None => Expiry::Never,
    };
    proof {
        lemma_token_update_preserves_wf(
            s0,
            token_id@,
            approved_token(s0.tokens[token_id@], spender@, exp),
        );
    }
    let mut approvals = approvals_removing(&token.approvals, &spender);
    approvals.push(ApprovalRecord { spender: spender.clone(), expires: exp });
    let updated = TokenRecord {
        owner: token.owner,
        name: token.name,
        description: token.description,
        image: token.image,
        approvals,
    };
    proof {
        assert(updated@ =~= approved_token(s0.tokens[tv], pv, exp));
    }
    reg.store.token_save(&token_id, &updated);
    let mut attributes: Vec<Attribute> = Vec::new();
    attributes.push(Attribute { key: "action".to_owned(), value: "approve".to_owned() });
    attributes.push(Attribute { key: "sender".to_owned(), value: sender });
    attributes.push(Attribute { key: "spender".to_owned(), value: spender });
    attributes.push(Attribute { key: "token_id".to_owned(), value: token_id });
    let resp = Response { messages: Vec::new(), attributes };
    proof {
        assert(resp@.messages =~= Seq::<crate::types::BankTransferView>::empty());
        assert(resp@.attributes =~= approval_attributes("approve"@, sv, pv, tv));
    }
    Ok(resp)
}

/// Withdraws `spender`'s approval on `token_id`, as the external ownership
/// module directs.
pub fn execute_revoke(
    reg: &mut Registry,
    sender: String,
    spender: String,
    token_id: String,
) -> (r: Result<Response, RegistryError>)
    requires
        old(reg).wf(),
    ensures
        final(reg).wf(),
        match r {
            Ok(resp) => old(reg)@.tokens.dom().contains(token_id@)
                && final(reg)@ == token_updated(
                    old(reg)@,
                    token_id@,
                    revoked_token(old(reg)@.tokens[token_id@], spender@),
                )
                && resp@.messages.len() == 0
                && resp@.attributes == approval_attributes("revoke"@, sender@, spender@, token_id@),
            Err(e) => !old(reg)@.tokens.dom().contains(token_id@)
                && final(reg)@ == old(reg)@
                && (e matches RegistryError::NotFound { id } && id@ == token_id@),
        },
{
    let ghost s0 = reg@;
    let ghost sv = sender@;
    let ghost pv = spender@;
    let ghost tv = token_id@;
    let token = match reg.store.token_load(&token_id) {
        Some(t) => t,
        None => {
            return Err(RegistryError::NotFound { id: token_id });
        },
    };
    proof {
        lemma_token_update_preserves_wf(
            s0,
            token_id@,
            revoked_token(s0.tokens[token_id@], spender@),
        );
    }
    let approvals = approvals_removing(&token.approvals, &spender);
    let updated = TokenRecord {
        owner: token.owner,
        name: token.name,
        description: token.description,
        image: token.image,
        approvals,
    };
    proof {
        assert(updated@ =~= revoked_token(s0.tokens[token_id@], spender@));
    }
    reg.store.token_save(&token_id, &updated);
    let mut attributes: Vec<Attribute> = Vec::new();
    attributes.push(Attribute { key: "action".to_owned(), value: "revoke".to_owned() });
    attributes.push(Attribute { key: "sender".to_owned(), value: sender });
    attributes.push(Attribute { key: "spender".to_owned(), value: spender });
    attributes.push(Attribute { key: "token_id".to_owned(), value: token_id });
    let resp = Response { messages: Vec::new(), attributes };
    proof {
        assert(resp@.messages =~= Seq::<crate::types::BankTransferView>::empty());
        assert(resp@.attributes =~= approval_attributes("revoke"@, sv, pv, tv));
    }
    Ok(resp)
}

/// The event of an operator change.
pub open spec fn operator_attributes(
    action: Seq<char>,
    sender: Seq<char>,
    operator: Seq<char>,
) -> Seq<AttributeView> {
    seq![
        AttributeView { key: "action"@, value: action },
        AttributeView { key: "sender"@, value: sender },
        AttributeView { key: "operator"@, value: operator },
    ]
}

/// Grants `operator` control over all of the sender's tokens, expiring as
/// given (never, when not given), as the external ownership module directs.
pub fn execute_approve_all(
    reg: &mut Registry,
    sender: String,
    operator: String,
    expires: Option<Expiry>,
) -> (r: Response)
    requires
        old(reg).wf(),
    ensures
        final(reg).wf(),
        final(reg)@ == (RegView {
            operators: old(reg)@.operators.insert(
                (sender@, operator@),
                match expires {
                    Some(e) => e,
                    None => Expiry::Never,
                },
            ),
            ..old(reg)@
        }),
        r@.messages.len() == 0,
        r@.attributes == operator_attributes("approve_all"@, sender@, operator@),
{
    let ghost s0 = reg@;
    let ghost sv = sender@;
    let ghost ov = operator@;
    let exp = match expires {
        Some(e) => e,
        None => Expiry::Never,
    };
    reg.store.operator_save(&sender, &operator, exp);
    let mut attributes: Vec<Attribute> = Vec::new();
    attributes.push(Attribute { key: "action".to_owned(), value: "approve_all".to_owned() });
    attributes.push(Attribute { key: "sender".to_owned(), value: sender });
    attributes.push(Attribute { key: "operator".to_owned(), value: operator });
    let resp = Response { messages: Vec::new(), attributes };
    proof {
        assert(reg@ =~= (RegView { operators: s0.operators.insert((sv, ov), exp), ..s0 }));
        assert(resp@.messages =~= Seq::<crate::types::BankTransferView>::empty());
        assert(resp@.attributes =~= operator_attributes("approve_all"@, sv, ov));
    }
    resp
}

/// Withdraws `operator`'s control over the sender's tokens, as the external
/// ownership module directs.
pub fn execute_revoke_all(reg: &mut Registry, sender: String, operator: String) -> (r: Response)
    requires
        old(reg).wf(),
    ensures
        final(reg).wf(),
        final(reg)@ == (RegView {
            operators: old(reg)@.operators.remove((sender@, operator@)),
            ..old(reg)@
        }),
        r@.messages.len() == 0,
        r@.attributes == operator_attributes("revoke_all"@, sender@, operator@),
{
    let ghost s0 = reg@;
    let ghost sv = sender@;
    let ghost ov = operator@;
    reg.store.operator_remove(&sender, &operator);
    let mut attributes: Vec<Attribute> = Vec::new();
    attributes.push(Attribute { key: "action".to_owned(), value: "revoke_all".to_owned() });
    attributes.push(Attribute { key: "sender".to_owned(), value: sender });
    attributes.push(Attribute { key: "operator".to_owned(), value: operator });
    let resp = Response { messages: Vec::new(), attributes };
    proof {
        assert(reg@ =~= (RegView { operators: s0.operators.remove((sv, ov)), ..s0 }));
        assert(resp@.messages =~= Seq::<crate::types::BankTransferView>::empty());
        assert(resp@.attributes =~= operator_attributes("revoke_all"@, sv, ov));
    }
    resp
}

/// Stores the contract metadata; nothing else changes, and the result is an
/// empty event.
pub fn instantiate(reg: &mut Registry, msg: InstantiateMsg) -> (r: Response)
    requires
        old(reg).wf(),
    ensures
        final(reg).wf(),
        final(reg)@ == (RegView { info: Some((msg@.name, msg@.symbol)), ..old(reg)@ }),
        r@.messages.len() == 0,
        r@.attributes.len() == 0,
{
    reg.store.info_save(&msg.name, &msg.symbol);
    let r = Response { messages: Vec::new(), attributes: Vec::new() };
    proof {
        assert(reg@ =~= (RegView { info: Some((msg@.name, msg@.symbol)), ..old(reg)@ }));
    }
    r
}

/// The metadata slice of a token record.
pub open spec fn token_nft_info(t: TokenView) -> NftInfoResponseView {
    NftInfoResponseView { name: t.name, description: t.description, image: t.image }
}

/// `aps` restricted to the approvals the expiry filter lets through: all of
/// them when `include_expired`, otherwise those not yet lapsed at `b`.
pub open spec fn approvals_passing(
    aps: Seq<ApprovalView>,
    include_expired: bool,
    b: BlockInfo,
) -> Seq<ApprovalView>
    decreases aps.len(),
{
    if aps.len() == 0 {
        Seq::empty()
    } else if include_expired || !spec_expired(aps.first().expires, b) {
        seq![aps.first()] + approvals_passing(aps.drop_first(), include_expired, b)
    } else {
        approvals_passing(aps.drop_first(), include_expired, b)
    }
}

/// The owner-and-approvals answer for one token record.
pub open spec fn token_owner_of(
    t: TokenView,
    include_expired: bool,
    b: BlockInfo,
) -> OwnerOfResponseView {
    OwnerOfResponseView { owner: t.owner, approvals: approvals_passing(t.approvals, include_expired, b) }
}

/// The approvals of a token that pass the expiry filter, executably.
fn humanize_approvals(
    aps: &Vec<ApprovalRecord>,
    include_expired: bool,
    block: &BlockInfo,
) -> (r: Vec<ApprovalRecord>)
    ensures
        r@.map_values(|a: ApprovalRecord| a@) == approvals_passing(
            aps@.map_values(|a: ApprovalRecord| a@),
            include_expired,
            *block,
        ),
{
    let ghost all = aps@.map_values(|a: ApprovalRecord| a@);
    let mut out: Vec<ApprovalRecord> = Vec::new();
    let mut i: usize = 0;
    proof {
        assert(all.skip(0) =~= all);
        assert(out@.map_values(|a: ApprovalRecord| a@) =~= Seq::<ApprovalView>::empty());
    }
    while i < aps.len()
        invariant
            0 <= i <= aps.len(),
            all == aps@.map_values(|a: ApprovalRecord| a@),
            out@.map_values(|a: ApprovalRecord| a@)
                + approvals_passing(all.skip(i as int), include_expired, *block)
                =~= approvals_passing(all, include_expired, *block),
        decreases aps.len() - i,
    {
        let ghost rest = all.skip(i as int);
        proof {
            assert(rest.len() > 0);
            assert(rest.first() == all[i as int]);
            assert(rest.drop_first() =~= all.skip(i as int + 1));
        }
        if include_expired || !aps[i].expires.is_expired(block) {
            let ghost before = out@.map_values(|a: ApprovalRecord| a@);
            out.push(aps[i].dup());
            proof {
                assert(out@.map_values(|a: ApprovalRecord| a@) =~= before + seq![all[i as int]]);
            }
        }
        i += 1;
    }
    proof {
        assert(all.skip(aps@.len() as int).len() == 0);
        assert(out@.map_values(|a: ApprovalRecord| a@)
            =~= approvals_passing(all, include_expired, *block));
    }
    out
}

/// Answers with the contract metadata; `NotFound` when the contract was
/// never instantiated.
pub fn query_contract_info(reg: &Registry) -> (r: Result<ContractInfoResponse, RegistryError>)
    ensures
        match r {
            Ok(c) => reg@.info == Some((c@.name, c@.symbol)),
            Err(e) => reg@.info.is_none()
                && (e matches RegistryError::NotFound { id } && id@ == "contract_info"@),
        },
{
    match reg.store.info_load() {
        Some(p) => Ok(ContractInfoResponse { name: p.0, symbol: p.1 }),
        None => Err(RegistryError::NotFound { id: "contract_info".to_owned() }),
    }
}

/// Answers with the total number of tokens issued.
pub fn query_num_tokens(reg: &Registry) -> (r: NumTokensResponse)
    ensures
        r.count == reg@.count,
{
    NumTokensResponse { count: reg.store.count_get() }
}

/// Answers with one token's metadata; `NotFound` for an unknown id.
pub fn query_nft_info(reg: &Registry, token_id: &String) -> (r: Result<
    NftInfoResponse,
    RegistryError,
>)
    ensures
        match r {
            Ok(n) => reg@.tokens.dom().contains(token_id@)
                && n@ == token_nft_info(reg@.tokens[token_id@]),
            Err(e) => !reg@.tokens.dom().contains(token_id@)
                && (e matches RegistryError::NotFound { id } && id@ == token_id@),
        },
{
    match reg.store.token_load(token_id) {
        Some(t) => {
            let n = NftInfoResponse { name: t.name, description: t.description, image: t.image };
            proof {
                assert(n@ =~= token_nft_info(reg@.tokens[token_id@]));
            }
            Ok(n)
        },
        None => Err(RegistryError::NotFound { id: token_id.clone() }),
    }
}

/// Answers with a token's owner and the approvals passing the expiry
/// filter; `NotFound` for an unknown id.
pub fn query_owner_of(
    reg: &Registry,
    token_id: &String,
    include_expired: bool,
    block: &BlockInfo,
) -> (r: Result<OwnerOfResponse, RegistryError>)
    ensures
        match r {
            Ok(o) => reg@.tokens.dom().contains(token_id@)
                && o@ == token_owner_of(reg@.tokens[token_id@], include_expired, *block),
            Err(e) => !reg@.tokens.dom().contains(token_id@)
                && (e matches RegistryError::NotFound { id } && id@ == token_id@),
        },
{
    match reg.store.token_load(token_id) {
        Some(t) => {
            let approvals = humanize_approvals(&t.approvals, include_expired, block);
            let o = OwnerOfResponse { owner: t.owner, approvals };
            proof {
                assert(o@ =~= token_owner_of(reg@.tokens[token_id@], include_expired, *block));
            }
            Ok(o)
        },
        None => Err(RegistryError::NotFound { id: token_id.clone() }),
    }
}

/// Answers `NftInfo` and `OwnerOf` at once; `NotFound` for an unknown id.
pub fn query_all_nft_info(
    reg: &Registry,
    token_id: &String,
    include_expired: bool,
    block: &BlockInfo,
) -> (r: Result<AllNftInfoResponse, RegistryError>)
    ensures
        match r {
            Ok(a) => reg@.tokens.dom().contains(token_id@)
                && a@.access == token_owner_of(reg@.tokens[token_id@], include_expired, *block)
                && a@.info == token_nft_info(reg@.tokens[token_id@]),
            Err(e) => !reg@.tokens.dom().contains(token_id@)
                && (e matches RegistryError::NotFound { id } && id@ == token_id@),
        },
{
    let access = match query_owner_of(reg, token_id, include_expired, block) {
        Ok(o) => o,
        Err(e) => {
            return Err(e);
        },
    };
    let info = match query_nft_info(reg, token_id) {
        Ok(n) => n,
        Err(e) => {
            return Err(e);
        },
    };
    Ok(AllNftInfoResponse { access, info })
}

/// One owner's slice of the operator table.
pub open spec fn owner_ops(
    m: Map<(Seq<char>, Seq<char>), Expiry>,
    owner: Seq<char>,
) -> Map<Seq<char>, Expiry> {
    Map::new(|op: Seq<char>| m.dom().contains((owner, op)), |op: Seq<char>| m[(owner, op)])
}

/// The ascending enumeration of an operator table slice, with its expiries.
pub open spec fn sorted_ops(m2: Map<Seq<char>, Expiry>) -> Seq<(Seq<char>, Expiry)> {
    sorted_keys(m2).map_values(|k: Seq<char>| (k, m2[k]))
}

/// Answers one page of the owner's operators, in ascending operator order,
/// filtered by expiry.
pub fn query_all_approvals(
    reg: &Registry,
    owner: &String,
    include_expired: bool,
    start_after: Option<&String>,
    limit: Option<u32>,
    block: &BlockInfo,
) -> (r: ApprovedForAllResponse)
    ensures
        r@.operators == spec_page_operators(
            sorted_ops(owner_ops(reg@.operators, owner@)),
            opt_view(start_after),
            include_expired,
            *block,
            spec_eff_limit(limit),
        ),
{
    let entries = reg.store.operators_by_owner(owner);
    let ghost m2 = owner_ops(reg@.operators, owner@);
    let ghost ks = entry_views(entries@).map_values(|e: (Seq<char>, Expiry)| e.0);
    proof {
        assert forall|i: int| 0 <= i < ks.len() implies m2.dom().contains(#[trigger] ks[i]) by {
            assert(ks[i] == entries@[i].0@);
        }
        assert forall|k: Seq<char>| #[trigger] m2.dom().contains(k) implies ks.contains(k) by {
            assert(reg@.operators.dom().contains((owner@, k)));
            let i = choose|i: int| 0 <= i < entries@.len() && #[trigger] entries@[i].0@ == k;
            assert(ks[i] == k);
        }
        assert(crate::order::strict_sorted(ks)) by {
            assert(forall|i: int, j: int| 0 <= i < j < ks.len()
                ==> crate::order::str_lt(#[trigger] ks[i], #[trigger] ks[j]));
        }
        crate::enumeration::lemma_sorted_keys_canonical(m2, ks);
        assert(entry_views(entries@) =~= sorted_ops(m2));
    }
    let lim = eff_limit(limit);
    let operators = page_operators(&entries, start_after, include_expired, block, lim);
    ApprovedForAllResponse { operators }
}

/// The token ids among `ks` whose record in `tokens` names `owner`.
pub open spec fn ids_of_owner(
    ks: Seq<Seq<char>>,
    tokens: Map<Seq<char>, TokenView>,
    owner: Seq<char>,
) -> Seq<Seq<char>>
    decreases ks.len(),
{
    if ks.len() == 0 {
        Seq::empty()
    } else if tokens.dom().contains(ks.first()) && tokens[ks.first()].owner == owner {
        seq![ks.first()] + ids_of_owner(ks.drop_first(), tokens, owner)
    } else {
        ids_of_owner(ks.drop_first(), tokens, owner)
    }
}

/// Answers one page of the owner's token ids, ascending.
pub fn query_tokens(
    reg: &Registry,
    owner: &String,
    start_after: Option<&String>,
    limit: Option<u32>,
) -> (r: TokensResponse)
    requires
        reg.wf(),
    ensures
        r@.tokens == spec_page(
            ids_of_owner(sorted_keys(reg@.tokens), reg@.tokens, owner@),
            opt_view(start_after),
            spec_eff_limit(limit),
        ),
{
    let ids = reg.store.token_ids();
    let ghost all = views_of(ids@);
    proof {
        crate::enumeration::lemma_sorted_keys_canonical(reg@.tokens, all);
    }
    let mut owned: Vec<String> = Vec::new();
    let mut i: usize = 0;
    proof {
        assert(all.skip(0) =~= all);
        assert(views_of(owned@) =~= Seq::<Seq<char>>::empty());
    }
    while i < ids.len()
        invariant
            0 <= i <= ids.len(),
            all == views_of(ids@),
            reg.wf(),
            views_of(owned@) + ids_of_owner(all.skip(i as int), reg@.tokens, owner@)
                =~= ids_of_owner(all, reg@.tokens, owner@),
        decreases ids.len() - i,
    {
        let ghost rest = all.skip(i as int);
        proof {
            assert(rest.len() > 0);
            assert(rest.first() == all[i as int]);
            assert(rest.drop_first() =~= all.skip(i as int + 1));
        }
        let keep = match reg.store.token_load(&ids[i]) {
            Some(t) => t.owner == *owner,
            None => false,
        };
        if keep {
            let ghost before = views_of(owned@);
            owned.push(ids[i].clone());
            proof {
                assert(views_of(owned@) =~= before + seq![all[i as int]]);
            }
        }
        i += 1;
    }
    proof {
        assert(all.skip(ids@.len() as int).len() == 0);
        assert(views_of(owned@) =~= ids_of_owner(all, reg@.tokens, owner@));
    }
    let lim = eff_limit(limit);
    let tokens = page_ids(&owned, start_after, lim);
    TokensResponse { tokens }
}

/// Answers one page of all token ids, ascending.
pub fn query_all_tokens(
    reg: &Registry,
    start_after: Option<&String>,
    limit: Option<u32>,
) -> (r: TokensResponse)
    ensures
        r@.tokens == spec_page(
            sorted_keys(reg@.tokens),
            opt_view(start_after),
            spec_eff_limit(limit),
        ),
{
    let ids = reg.store.token_ids();
    proof {
        crate::enumeration::lemma_sorted_keys_canonical(reg@.tokens, views_of(ids@));
    }
    let lim = eff_limit(limit);
    let tokens = page_ids(&ids, start_after, lim);
    TokensResponse { tokens }
}

/// What a fingerprint resolves to: the composite of the token record, the
/// ISCC data and the licensing terms it is linked to, or nothing.
pub open spec fn resolve_spec(s: RegView, f: Seq<char>) -> Option<TokenResponseView> {
    if s.iscc.dom().contains(f) {
        let t = s.iscc[f];
        Some(
            TokenResponseView {
                token_id: t,
                owner: s.tokens[t].owner,
                name: s.tokens[t].name,
                description: Some(s.tokens[t].description),
                image: s.tokens[t].image,
                meta_id: s.iscc_data[f].meta_id,
                iscc_code: s.iscc_data[f].iscc_code,
                data_id: s.iscc_data[f].data_id,
                instance_id: s.iscc_data[f].instance_id,
                tophash: s.iscc_data[f].tophash,
                license_url: s.licensing[t].url,
                license_price: s.licensing[t].price,
            },
        )
    } else {
        None
    }
}

/// Resolves a content fingerprint to the full composite record; absence is
/// a normal empty answer, not an error.
pub fn get_by_iscc_code(reg: &Registry, iscc_code: &String) -> (r: Option<TokenResponse>)
    requires
        reg.wf(),
    ensures
        match r {
            Some(tr) => resolve_spec(reg@, iscc_code@) == Some(tr@),
            None => resolve_spec(reg@, iscc_code@).is_none(),
        },
{
    let token_id = match reg.store.iscc_load(iscc_code) {
        Some(t) => t,
        None => {
            return None;
        },
    };
    let token = match reg.store.token_load(&token_id) {
        Some(t) => t,
        None => {
            // Unreachable: well-formedness ties fingerprint links to tokens.
            return None;
        },
    };
    let data = match reg.store.iscc_data_load(iscc_code) {
        Some(d) => d,
        None => {
            // Unreachable: fingerprints and their data share one key set.
            return None;
        },
    };
    let terms = match reg.store.licensing_load(&token_id) {
        Some(l) => l,
        None => {
            // Unreachable: every token carries licensing terms.
            return None;
        },
    };
    let tr = TokenResponse {
        token_id,
        owner: token.owner,
        name: token.name,
        description: Some(token.description),
        image: token.image,
        meta_id: data.meta_id,
        iscc_code: data.iscc_code,
        data_id: data.data_id,
        instance_id: data.instance_id,
        tophash: data.tophash,
        license_url: terms.url,
        license_price: terms.price,
    };
    proof {
        assert(resolve_spec(reg@, iscc_code@) == Some(tr@)) by {
            assert(tr@ =~= resolve_spec(reg@, iscc_code@).unwrap());
        }
    }
    Some(tr)
}

/// Reads one licensee's current entitlement on a token, or nothing.
pub fn query_license(reg: &Registry, licensee: &String, token_id: &String) -> (r: Option<License>)
    ensures
        match r {
            Some(l) => reg@.licenses.dom().contains((licensee@, token_id@))
                && l@ == reg@.licenses[(licensee@, token_id@)],
            None => !reg@.licenses.dom().contains((licensee@, token_id@)),
        },
{
    reg.store.license_load(licensee, token_id)
}

/// The `include_expired` flag a query meant: unset means filtering.
pub open spec fn expired_flag(o: Option<bool>) -> bool {
    match o {
        Some(b) => b,
        None => false,
    }
}

/// Dispatches one command to its workflow: the two core workflows (mint,
/// license purchase) and the capability interface the external ownership
/// module drives. Exactly one workflow runs; its contract is restated here
/// arm by arm.
pub fn execute(reg: &mut Registry, sender: String, funds: Vec<Coin>, msg: ExecuteMsg) -> (r:
    Result<Response, RegistryError>)
    requires
        old(reg).wf(),
        old(reg)@.count < u64::MAX,
    ensures
        final(reg).wf(),
        match msg {
            ExecuteMsg::Mint(m) => match r {
                Ok(resp) => mint_allowed(old(reg)@, m@)
                    && final(reg)@ == mint_state(old(reg)@, m@, sender@)
                    && resp@.messages.len() == 0
                    && resp@.attributes == mint_attributes(m@),
                Err(e) => !mint_allowed(old(reg)@, m@)
                    && final(reg)@ == old(reg)@
                    && (e matches RegistryError::AlreadyExists { id }
                        && id@ == (if old(reg)@.tokens.dom().contains(m@.token_id) {
                            m@.token_id
                        } else {
                            m@.iscc_code
                        })),
            },
            ExecuteMsg::License { token_id } => match r {
                Ok(resp) => purchase_allowed(old(reg)@, token_id@, coin_views(funds@))
                    && final(reg)@ == purchase_state(old(reg)@, token_id@, sender@, funds@[0]@)
                    && resp@ == purchase_response(old(reg)@, token_id@, sender@, funds@[0]@),
                Err(e) => final(reg)@ == old(reg)@
                    && !purchase_allowed(old(reg)@, token_id@, coin_views(funds@))
                    && match e {
                        RegistryError::NotFound { id } => !old(reg)@.licensing.dom().contains(
                            token_id@,
                        ) && id@ == token_id@,
                        RegistryError::Unauthorized => old(reg)@.licensing.dom().contains(token_id@)
                            && !payment_ok(old(reg)@.licensing[token_id@], coin_views(funds@)),
                        RegistryError::AlreadyExists { .. } => false,
                    },
            },
            ExecuteMsg::TransferNft { recipient, token_id } => match r {
                Ok(resp) => old(reg)@.tokens.dom().contains(token_id@)
                    && final(reg)@ == token_updated(
                        old(reg)@,
                        token_id@,
                        transferred_token(old(reg)@.tokens[token_id@], recipient@),
                    )
                    && resp@.attributes == transfer_attributes("transfer_nft"@, sender@, recipient@, token_id@),
                Err(e) => !old(reg)@.tokens.dom().contains(token_id@)
                    && final(reg)@ == old(reg)@,
            },
            ExecuteMsg::SendNft { contract, token_id, msg: _ } => match r {
                Ok(resp) => old(reg)@.tokens.dom().contains(token_id@)
                    && final(reg)@ == token_updated(
                        old(reg)@,
                        token_id@,
                        transferred_token(old(reg)@.tokens[token_id@], contract@),
                    )
                    && resp@.attributes == transfer_attributes("send_nft"@, sender@, contract@, token_id@),
                Err(e) => !old(reg)@.tokens.dom().contains(token_id@)
                    && final(reg)@ == old(reg)@,
            },
            ExecuteMsg::Approve { spender, token_id, expires } => match r {
                Ok(resp) => old(reg)@.tokens.dom().contains(token_id@)
                    && final(reg)@ == token_updated(
                        old(reg)@,
                        token_id@,
                        approved_token(
                            old(reg)@.tokens[token_id@],
                            spender@,
                            match expires {
                                Some(e) => e,
                                None => Expiry::Never,
                            },
                        ),
                    )
                    && resp@.attributes == approval_attributes("approve"@, sender@, spender@, token_id@),
                Err(e) => !old(reg)@.tokens.dom().contains(token_id@)
                    && final(reg)@ == old(reg)@,
            },
            ExecuteMsg::Revoke { spender, token_id } => match r {
                Ok(resp) => old(reg)@.tokens.dom().contains(token_id@)
                    && final(reg)@ == token_updated(
                        old(reg)@,
                        token_id@,
                        revoked_token(old(reg)@.tokens[token_id@], spender@),
                    )
                    && resp@.attributes == approval_attributes("revoke"@, sender@, spender@, token_id@),
                Err(e) => !old(reg)@.tokens.dom().contains(token_id@)
                    && final(reg)@ == old(reg)@,
            },
            ExecuteMsg::ApproveAll { operator, expires } => r matches Ok(resp)
                && final(reg)@ == (RegView {
                    operators: old(reg)@.operators.insert(
                        (sender@, operator@),
                        match expires {
                            Some(e) => e,
                            None => Expiry::Never,
                        },
                    ),
                    ..old(reg)@
                })
                && resp@.attributes == operator_attributes("approve_all"@, sender@, operator@),
            ExecuteMsg::RevokeAll { operator } => r matches Ok(resp)
                && final(reg)@ == (RegView {
                    operators: old(reg)@.operators.remove((sender@, operator@)),
                    ..old(reg)@
                })
                && resp@.attributes == operator_attributes("revoke_all"@, sender@, operator@),
        },
{
    match msg {
        ExecuteMsg::Mint(m) => execute_mint(reg, sender, m),
        ExecuteMsg::License { token_id } => execute_licensing(reg, sender, funds, token_id),
        ExecuteMsg::TransferNft { recipient, token_id } => execute_transfer_nft(
            reg,
            sender,
            recipient,
            token_id,
        ),
        ExecuteMsg::SendNft { contract, token_id, msg: _ } => execute_send_nft(
            reg,
            sender,
            contract,
            token_id,
        ),
        ExecuteMsg::Approve { spender, token_id, expires } => execute_approve(
            reg,
            sender,
            spender,
            token_id,
            expires,
        ),
        ExecuteMsg::Revoke { spender, token_id } => execute_revoke(reg, sender, spender, token_id),
        ExecuteMsg::ApproveAll { operator, expires } => Ok(
            execute_approve_all(reg, sender, operator, expires),
        ),
        ExecuteMsg::RevokeAll { operator } => Ok(execute_revoke_all(reg, sender, operator)),
    }
}

/// Answers one read-only query; queries never change the registry. Each
/// query shape's contract is restated here arm by arm.
pub fn query(reg: &Registry, block: &BlockInfo, msg: QueryMsg) -> (r: Result<
    QueryAnswer,
    RegistryError,
>)
    requires
        reg.wf(),
    ensures
        match msg {
            QueryMsg::ContractInfo {} => match r {
                Ok(a) => a matches QueryAnswer::ContractInfo(c)
                    && reg@.info == Some((c@.name, c@.symbol)),
                Err(e) => reg@.info.is_none() && e matches RegistryError::NotFound { .. },
            },
            QueryMsg::NumTokens {} => r matches Ok(a) && (a matches QueryAnswer::NumTokens(n)
                && n.count == reg@.count),
            QueryMsg::NftInfo { token_id } => match r {
                Ok(a) => a matches QueryAnswer::NftInfo(n)
                    && reg@.tokens.dom().contains(token_id@)
                    && n@ == token_nft_info(reg@.tokens[token_id@]),
                Err(e) => !reg@.tokens.dom().contains(token_id@)
                    && e matches RegistryError::NotFound { .. },
            },
            QueryMsg::OwnerOf { token_id, include_expired } => match r {
                Ok(a) => a matches QueryAnswer::OwnerOf(o)
                    && reg@.tokens.dom().contains(token_id@)
                    && o@ == token_owner_of(
                        reg@.tokens[token_id@],
                        expired_flag(include_expired),
                        *block,
                    ),
                Err(e) => !reg@.tokens.dom().contains(token_id@)
                    && e matches RegistryError::NotFound { .. },
            },
            QueryMsg::AllNftInfo { token_id, include_expired } => match r {
                Ok(a) => a matches QueryAnswer::AllNftInfo(all)
                    && reg@.tokens.dom().contains(token_id@)
                    && all@.access == token_owner_of(
                        reg@.tokens[token_id@],
                        expired_flag(include_expired),
                        *block,
                    )
                    && all@.info == token_nft_info(reg@.tokens[token_id@]),
                Err(e) => !reg@.tokens.dom().contains(token_id@)
                    && e matches RegistryError::NotFound { .. },
            },
            QueryMsg::ApprovedForAll { owner, include_expired, start_after, limit } => r matches Ok(a)
                && (a matches QueryAnswer::ApprovedForAll(resp)
                && resp@.operators == spec_page_operators(
                    sorted_ops(owner_ops(reg@.operators, owner@)),
                    opt_string_view(start_after),
                    expired_flag(include_expired),
                    *block,
                    spec_eff_limit(limit),
                )),
            QueryMsg::Tokens { owner, start_after, limit } => r matches Ok(a)
                && (a matches QueryAnswer::Tokens(resp)
                && resp@.tokens == spec_page(
                    ids_of_owner(sorted_keys(reg@.tokens), reg@.tokens, owner@),
                    opt_string_view(start_after),
                    spec_eff_limit(limit),
                )),
            QueryMsg::AllTokens { start_after, limit } => r matches Ok(a)
                && (a matches QueryAnswer::AllTokens(resp)
                && resp@.tokens == spec_page(
                    sorted_keys(reg@.tokens),
                    opt_string_view(start_after),
                    spec_eff_limit(limit),
                )),
            QueryMsg::GetByIsccCode { iscc_code } => r matches Ok(a)
                && (a matches QueryAnswer::Resolved(o) && match o {
                    Some(tr) => resolve_spec(reg@, iscc_code@) == Some(tr@),
                    None => resolve_spec(reg@, iscc_code@).is_none(),
                }),
        },
{
    match msg {
        QueryMsg::ContractInfo {} => match query_contract_info(reg) {
            Ok(c) => Ok(QueryAnswer::ContractInfo(c)),
            Err(e) => Err(e),
        },
        QueryMsg::NumTokens {} => Ok(QueryAnswer::NumTokens(query_num_tokens(reg))),
        QueryMsg::NftInfo { token_id } => match query_nft_info(reg, &token_id) {
            Ok(n) => Ok(QueryAnswer::NftInfo(n)),
            Err(e) => Err(e),
        },
        QueryMsg::OwnerOf { token_id, include_expired } => {
            let flag = match include_expired {
                Some(b) => b,
                None => false,
            };
            match query_owner_of(reg, &token_id, flag, block) {
                Ok(o) => Ok(QueryAnswer::OwnerOf(o)),
                Err(e) => Err(e),
            }
        },
        QueryMsg::AllNftInfo { token_id, include_expired } => {
            let flag = match include_expired {
                Some(b) => b,
                None => false,
            };
            match query_all_nft_info(reg, &token_id, flag, block) {
                Ok(a) => Ok(QueryAnswer::AllNftInfo(a)),
                Err(e) => Err(e),
            }
        },
        QueryMsg::ApprovedForAll { owner, include_expired, start_after, limit } => {
            let flag = match include_expired {
                Some(b) => b,
                None => false,
            };
            let resp = query_all_approvals(reg, &owner, flag, start_after.as_ref(), limit, block);
            Ok(QueryAnswer::ApprovedForAll(resp))
        },
        QueryMsg::Tokens { owner, start_after, limit } => {
            let resp = query_tokens(reg, &owner, start_after.as_ref(), limit);
            Ok(QueryAnswer::Tokens(resp))
        },
        QueryMsg::AllTokens { start_after, limit } => {
            let resp = query_all_tokens(reg, start_after.as_ref(), limit);
            Ok(QueryAnswer::AllTokens(resp))
        },
        QueryMsg::GetByIsccCode { iscc_code } => Ok(
            QueryAnswer::Resolved(get_by_iscc_code(reg, &iscc_code)),
        ),
    }
}

} // verus!
