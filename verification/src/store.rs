//! The persistent store and the narrow, trusted boundary to it.
//!
//! All registry state lives in an ordered key-value store, laid out as
//! independent namespaced tables: tokens by id, content fingerprint to token
//! id, fingerprint to ISCC data, token id to licensing terms, (licensee,
//! token id) to license record, (owner, operator) to operator approval, plus
//! the token counter and the contract metadata. The tables are kept through
//! `cw_storage_plus` and `cw721_base` over an in-memory backend.
//!
//! Verus sees the store only through the uninterpreted content functions
//! (`tokens_of`, `iscc_of`, ...) and the wrapper methods below, whose
//! contracts state what each store call does to those contents. Everything
//! above this module is verified against these contracts.

use vstd::prelude::*;

use crate::state::{IsccData, IsccDataView, License, LicenseView, Licensing, LicensingView};
use crate::types::{ApprovalRecord, Expiry, TokenRecord, TokenView};
use crate::order::{str_lt, strict_sorted, views_of};

verus! {

/// The ordered key-value store holding every table of the registry.
#[verifier::external_body]
pub struct Store {
    mem: cosmwasm_std::MemoryStorage,
}

/// Contents of the token table: token id to token record.
pub uninterp spec fn tokens_of(s: Store) -> Map<Seq<char>, TokenView>;

/// Contents of the content index: fingerprint to token id.
pub uninterp spec fn iscc_of(s: Store) -> Map<Seq<char>, Seq<char>>;

/// Contents of the ISCC data table: fingerprint to derived identifiers.
pub uninterp spec fn iscc_data_of(s: Store) -> Map<Seq<char>, IsccDataView>;

/// Contents of the licensing terms table: token id to terms.
pub uninterp spec fn licensing_of(s: Store) -> Map<Seq<char>, LicensingView>;

/// Contents of the license ledger: (licensee, token id) to license record.
pub uninterp spec fn licenses_of(s: Store) -> Map<(Seq<char>, Seq<char>), LicenseView>;

/// Contents of the operator table: (owner, operator) to expiry.
pub uninterp spec fn operators_of(s: Store) -> Map<(Seq<char>, Seq<char>), Expiry>;

/// The token counter's value.
pub uninterp spec fn token_count_of(s: Store) -> u64;

/// The contract metadata, `(name, symbol)` once instantiated.
pub uninterp spec fn contract_info_of(s: Store) -> Option<(Seq<char>, Seq<char>)>;

/// Every table is empty, the counter is zero, and no contract metadata is
/// stored: the state of a freshly created store.
pub open spec fn store_empty(s: Store) -> bool {
    &&& tokens_of(s) == Map::<Seq<char>, TokenView>::empty()
    &&& iscc_of(s) == Map::<Seq<char>, Seq<char>>::empty()
    &&& iscc_data_of(s) == Map::<Seq<char>, IsccDataView>::empty()
    &&& licensing_of(s) == Map::<Seq<char>, LicensingView>::empty()
    &&& licenses_of(s) == Map::<(Seq<char>, Seq<char>), LicenseView>::empty()
    &&& operators_of(s) == Map::<(Seq<char>, Seq<char>), Expiry>::empty()
    &&& token_count_of(s) == 0u64
    &&& contract_info_of(s).is_none()
}

/// The token tables of `a` and `b` agree.
pub open spec fn same_tokens(a: Store, b: Store) -> bool {
    tokens_of(a) == tokens_of(b)
}

/// The content indexes of `a` and `b` agree.
pub open spec fn same_iscc(a: Store, b: Store) -> bool {
    iscc_of(a) == iscc_of(b)
}

/// The ISCC data tables of `a` and `b` agree.
pub open spec fn same_iscc_data(a: Store, b: Store) -> bool {
    iscc_data_of(a) == iscc_data_of(b)
}

/// The licensing terms tables of `a` and `b` agree.
pub open spec fn same_licensing(a: Store, b: Store) -> bool {
    licensing_of(a) == licensing_of(b)
}

/// The license ledgers of `a` and `b` agree.
pub open spec fn same_licenses(a: Store, b: Store) -> bool {
    licenses_of(a) == licenses_of(b)
}

/// The operator tables of `a` and `b` agree.
pub open spec fn same_operators(a: Store, b: Store) -> bool {
    operators_of(a) == operators_of(b)
}

/// The token counters of `a` and `b` agree.
pub open spec fn same_count(a: Store, b: Store) -> bool {
    token_count_of(a) == token_count_of(b)
}

/// The contract metadata of `a` and `b` agree.
pub open spec fn same_info(a: Store, b: Store) -> bool {
    contract_info_of(a) == contract_info_of(b)
}

/// How an [`Expiry`] is encoded in the store: the variant's tag.
pub(crate) fn expiry_kind(e: &Expiry) -> (r: u8)
    ensures
        r == match e { Expiry::Never => 0u8, Expiry::AtHeight(_) => 1u8, Expiry::AtTime(_) => 2u8 },
{
    match e {
        Expiry::Never => 0,
        Expiry::AtHeight(_) => 1,
        Expiry::AtTime(_) => 2,
    }
}

/// How an [`Expiry`] is encoded in the store: the variant's payload.
pub(crate) fn expiry_value(e: &Expiry) -> (r: u64)
    ensures
        r == match e { Expiry::Never => 0u64, Expiry::AtHeight(h) => *h, Expiry::AtTime(t) => *t },
{
    match e {
        Expiry::Never => 0,
        Expiry::AtHeight(h) => *h,
        Expiry::AtTime(t) => *t,
    }
}

/// Decodes a stored `(tag, payload)` pair back into an [`Expiry`].
pub(crate) fn expiry_from_parts(kind: u8, value: u64) -> (r: Expiry)
    ensures
        r == if kind == 1 { Expiry::AtHeight(value) } else if kind == 2 { Expiry::AtTime(value) } else { Expiry::Never },
{
    if kind == 1 {
        Expiry::AtHeight(value)
    } else if kind == 2 {
        Expiry::AtTime(value)
    } else {
        Expiry::Never
    }
}

impl Store {
    /// Relies on `cosmwasm_std::MemoryStorage::new`: a fresh backend holds no
    /// entry in any namespace, so every table starts empty and the counter
    /// at zero.
    #[verifier::external_body]
    pub(crate) fn new() -> (s: Store)
        ensures
            store_empty(s),
    {
        Store { mem: cosmwasm_std::MemoryStorage::new() }
    }

    /// Relies on `cw_storage_plus::Map::save` on the "tokens" table: stores
    /// the serialized record under the token id, replacing any previous
    /// entry and leaving every other key and table untouched.
    #[verifier::external_body]
    pub(crate) fn token_save(&mut self, token_id: &String, rec: &TokenRecord)
        ensures
            tokens_of(*final(self)) == tokens_of(*old(self)).insert(token_id@, rec@),
            same_iscc(*old(self), *final(self)),
            same_iscc_data(*old(self), *final(self)),
            same_licensing(*old(self), *final(self)),
            same_licenses(*old(self), *final(self)),
            same_operators(*old(self), *final(self)),
            same_count(*old(self), *final(self)),
            same_info(*old(self), *final(self)),
    {
        let aps: Vec<(String, u8, u64)> = rec.approvals.iter()
            .map(|a| (a.spender.clone(), expiry_kind(&a.expires), expiry_value(&a.expires)))
            .collect();
        let v = (rec.owner.clone(), rec.name.clone(), rec.description.clone(), rec.image.clone(), aps);
        cw_storage_plus::Map::<&str, (String, String, String, Option<String>, Vec<(String, u8, u64)>)>::new("tokens")
            .save(&mut self.mem, token_id.as_str(), &v)
            .unwrap();
    }

    /// Relies on `cw_storage_plus::Map::may_load` on the "tokens" table:
    /// returns the value stored under the token id, deserialized, or `None`
    /// when the key is absent.
    #[verifier::external_body]
    pub(crate) fn token_load(&self, token_id: &String) -> (r: Option<TokenRecord>)
        ensures
            match r {
                Some(rec) => tokens_of(*self).dom().contains(token_id@)
                    && rec@ == tokens_of(*self)[token_id@],
                None => !tokens_of(*self).dom().contains(token_id@),
            },
    {
        let v: Option<(String, String, String, Option<String>, Vec<(String, u8, u64)>)> =
            cw_storage_plus::Map::new("tokens").may_load(&self.mem, token_id.as_str()).unwrap();
        v.map(|t| TokenRecord {
            owner: t.0, name: t.1, description: t.2, image: t.3,
            approvals: t.4.into_iter()
                .map(|p| ApprovalRecord { spender: p.0, expires: expiry_from_parts(p.1, p.2) })
                .collect(),
        })
    }

    /// Relies on `cw_storage_plus::Map::keys` on the "tokens" table: an
    /// ascending range scan over the whole namespace yields every stored key
    /// exactly once, in ascending lexicographic order.
    #[verifier::external_body]
    pub(crate) fn token_ids(&self) -> (r: Vec<String>)
        ensures
            strict_sorted(views_of(r@)),
            forall|i: int| 0 <= i < r@.len() ==> tokens_of(*self).dom().contains(#[trigger] views_of(r@)[i]),
            forall|k: Seq<char>| #[trigger] tokens_of(*self).dom().contains(k) ==> views_of(r@).contains(k),
    {
        cw_storage_plus::Map::<&str, (String, String, String, Option<String>, Vec<(String, u8, u64)>)>::new("tokens")
            .keys(&self.mem, None, None, cosmwasm_std::Order::Ascending)
            .map(|k| String::from_utf8_lossy(&k).to_string())
            .collect()
    }

    /// Relies on `cw_storage_plus::Map::save` on the "iscc" table: links a
    /// fingerprint to a token id, leaving every other key and table
    /// untouched.
    #[verifier::external_body]
    pub(crate) fn iscc_save(&mut self, fingerprint: &String, token_id: &String)
        ensures
            iscc_of(*final(self)) == iscc_of(*old(self)).insert(fingerprint@, token_id@),
            same_tokens(*old(self), *final(self)),
            same_iscc_data(*old(self), *final(self)),
            same_licensing(*old(self), *final(self)),
            same_licenses(*old(self), *final(self)),
            same_operators(*old(self), *final(self)),
            same_count(*old(self), *final(self)),
            same_info(*old(self), *final(self)),
    {
        cw_storage_plus::Map::<&str, String>::new("iscc")
            .save(&mut self.mem, fingerprint.as_str(), token_id)
            .unwrap();
    }

    /// Relies on `cw_storage_plus::Map::may_load` on the "iscc" table:
    /// returns the token id a fingerprint is linked to, or `None`.
    #[verifier::external_body]
    pub(crate) fn iscc_load(&self, fingerprint: &String) -> (r: Option<String>)
        ensures
            match r {
                Some(t) => iscc_of(*self).dom().contains(fingerprint@)
                    && t@ == iscc_of(*self)[fingerprint@],
                None => !iscc_of(*self).dom().contains(fingerprint@),
            },
    {
        cw_storage_plus::Map::<&str, String>::new("iscc")
            .may_load(&self.mem, fingerprint.as_str())
            .unwrap()
    }

    /// Relies on `cw_storage_plus::Map::save` on the "iscc_data" table:
    /// stores the ISCC record under the fingerprint, leaving every other key
    /// and table untouched.
    #[verifier::external_body]
    pub(crate) fn iscc_data_save(&mut self, fingerprint: &String, data: &IsccData)
        ensures
            iscc_data_of(*final(self)) == iscc_data_of(*old(self)).insert(fingerprint@, data@),
            same_tokens(*old(self), *final(self)),
            same_iscc(*old(self), *final(self)),
            same_licensing(*old(self), *final(self)),
            same_licenses(*old(self), *final(self)),
            same_operators(*old(self), *final(self)),
            same_count(*old(self), *final(self)),
            same_info(*old(self), *final(self)),
    {
        let v = (data.token_id.clone(), data.iscc_code.clone(), data.meta_id.clone(),
            data.data_id.clone(), data.instance_id.clone(), data.tophash.clone());
        cw_storage_plus::Map::<&str, (String, String, String, String, String, String)>::new("iscc_data")
            .save(&mut self.mem, fingerprint.as_str(), &v)
            .unwrap();
    }

    /// Relies on `cw_storage_plus::Map::may_load` on the "iscc_data" table:
    /// returns the ISCC record stored under the fingerprint, or `None`.
    #[verifier::external_body]
    pub(crate) fn iscc_data_load(&self, fingerprint: &String) -> (r: Option<IsccData>)
        ensures
            match r {
                Some(d) => iscc_data_of(*self).dom().contains(fingerprint@)
                    && d@ == iscc_data_of(*self)[fingerprint@],
                None => !iscc_data_of(*self).dom().contains(fingerprint@),
            },
    {
        let v: Option<(String, String, String, String, String, String)> =
            cw_storage_plus::Map::new("iscc_data").may_load(&self.mem, fingerprint.as_str()).unwrap();
        v.map(|t| IsccData {
            token_id: t.0, iscc_code: t.1, meta_id: t.2, data_id: t.3, instance_id: t.4, tophash: t.5,
        })
    }

    /// Relies on `cw_storage_plus::Map::save` on the "licensing" table:
    /// stores the terms under the token id, leaving every other key and
    /// table untouched.
    #[verifier::external_body]
    pub(crate) fn licensing_save(&mut self, token_id: &String, terms: &Licensing)
        ensures
            licensing_of(*final(self)) == licensing_of(*old(self)).insert(token_id@, terms@),
            same_tokens(*old(self), *final(self)),
            same_iscc(*old(self), *final(self)),
            same_iscc_data(*old(self), *final(self)),
            same_licenses(*old(self), *final(self)),
            same_operators(*old(self), *final(self)),
            same_count(*old(self), *final(self)),
            same_info(*old(self), *final(self)),
    {
        let amt = cosmwasm_std::Uint128::new(terms.price.amount);
        let v = (terms.token_id.clone(), terms.url.clone(), terms.price.denom.clone(), amt);
        cw_storage_plus::Map::<&str, (String, String, String, cosmwasm_std::Uint128)>::new("licensing")
            .save(&mut self.mem, token_id.as_str(), &v)
            .unwrap();
    }

    /// Relies on `cw_storage_plus::Map::may_load` on the "licensing" table:
    /// returns the terms stored under the token id, or `None`.
    #[verifier::external_body]
    pub(crate) fn licensing_load(&self, token_id: &String) -> (r: Option<Licensing>)
        ensures
            match r {
                Some(t) => licensing_of(*self).dom().contains(token_id@)
                    && t@ == licensing_of(*self)[token_id@],
                None => !licensing_of(*self).dom().contains(token_id@),
            },
    {
        let v: Option<(String, String, String, cosmwasm_std::Uint128)> =
            cw_storage_plus::Map::new("licensing").may_load(&self.mem, token_id.as_str()).unwrap();
        v.map(|t| Licensing {
            token_id: t.0, url: t.1, price: crate::types::Coin { denom: t.2, amount: t.3.u128() },
        })
    }

    /// Relies on `cw_storage_plus::Map::save` on the "licenses" table,
    /// keyed by (licensee, token id): an upsert that replaces any previous
    /// record of the same pair and leaves every other key and table
    /// untouched.
    #[verifier::external_body]
    pub(crate) fn license_save(&mut self, rec: &License)
        ensures
            licenses_of(*final(self))
                == licenses_of(*old(self)).insert((rec@.licensee, rec@.token_id), rec@),
            same_tokens(*old(self), *final(self)),
            same_iscc(*old(self), *final(self)),
            same_iscc_data(*old(self), *final(self)),
            same_licensing(*old(self), *final(self)),
            same_operators(*old(self), *final(self)),
            same_count(*old(self), *final(self)),
            same_info(*old(self), *final(self)),
    {
        let amt = cosmwasm_std::Uint128::new(rec.price.amount);
        let v = (rec.token_id.clone(), rec.licensee.clone(), rec.price.denom.clone(), amt);
        cw_storage_plus::Map::<(&cosmwasm_std::Addr, &str), (String, String, String, cosmwasm_std::Uint128)>::new("licenses")
            .save(&mut self.mem, (&cosmwasm_std::Addr::unchecked(rec.licensee.as_str()), rec.token_id.as_str()), &v)
            .unwrap();
    }

    /// Relies on `cw_storage_plus::Map::may_load` on the "licenses" table:
    /// returns the record stored under (licensee, token id), or `None`.
    #[verifier::external_body]
    pub(crate) fn license_load(&self, licensee: &String, token_id: &String) -> (r: Option<License>)
        ensures
            match r {
                Some(l) => licenses_of(*self).dom().contains((licensee@, token_id@))
                    && l@ == licenses_of(*self)[(licensee@, token_id@)],
                None => !licenses_of(*self).dom().contains((licensee@, token_id@)),
            },
    {
        let v: Option<(String, String, String, cosmwasm_std::Uint128)> = cw_storage_plus::Map::new("licenses")
            .may_load(&self.mem, (&cosmwasm_std::Addr::unchecked(licensee.as_str()), token_id.as_str()))
            .unwrap();
        v.map(|t| License {
            token_id: t.0, licensee: t.1, price: crate::types::Coin { denom: t.2, amount: t.3.u128() },
        })
    }

    /// Relies on `cw721_base`'s operator table (`Cw721Contract::operators`,
    /// a `cw_storage_plus::Map` keyed by (owner, operator)): `save` replaces
    /// the pair's entry and leaves every other key and table untouched.
    #[verifier::external_body]
    pub(crate) fn operator_save(&mut self, owner: &String, operator: &String, exp: Expiry)
        ensures
            operators_of(*final(self)) == operators_of(*old(self)).insert((owner@, operator@), exp),
            same_tokens(*old(self), *final(self)),
            same_iscc(*old(self), *final(self)),
            same_iscc_data(*old(self), *final(self)),
            same_licensing(*old(self), *final(self)),
            same_licenses(*old(self), *final(self)),
            same_count(*old(self), *final(self)),
            same_info(*old(self), *final(self)),
    {
        let c = cw721_base::state::Cw721Contract::<cosmwasm_std::Empty, cosmwasm_std::Empty>::default();
        let e = match exp {
            Expiry::Never => cw721::Expiration::Never {},
            Expiry::AtHeight(h) => cw721::Expiration::AtHeight(h),
            Expiry::AtTime(t) => cw721::Expiration::AtTime(cosmwasm_std::Timestamp::from_nanos(t)),
        };
        let (a, b) = (cosmwasm_std::Addr::unchecked(owner.as_str()), cosmwasm_std::Addr::unchecked(operator.as_str()));
        c.operators.save(&mut self.mem, (&a, &b), &e).unwrap();
    }

    /// Relies on `cw_storage_plus::Map::remove` on `cw721_base`'s operator
    /// table: deletes the pair's entry, leaving every other key and table
    /// untouched.
    #[verifier::external_body]
    pub(crate) fn operator_remove(&mut self, owner: &String, operator: &String)
        ensures
            operators_of(*final(self)) == operators_of(*old(self)).remove((owner@, operator@)),
            same_tokens(*old(self), *final(self)),
            same_iscc(*old(self), *final(self)),
            same_iscc_data(*old(self), *final(self)),
            same_licensing(*old(self), *final(self)),
            same_licenses(*old(self), *final(self)),
            same_count(*old(self), *final(self)),
            same_info(*old(self), *final(self)),
    {
        let c = cw721_base::state::Cw721Contract::<cosmwasm_std::Empty, cosmwasm_std::Empty>::default();
        let (a, b) = (cosmwasm_std::Addr::unchecked(owner.as_str()), cosmwasm_std::Addr::unchecked(operator.as_str()));
        c.operators.remove(&mut self.mem, (&a, &b));
    }

    /// Relies on `cw_storage_plus::Map::prefix(..).range` on `cw721_base`'s
    /// operator table: an ascending scan of one owner's prefix yields that
    /// owner's operators exactly once each, in ascending lexicographic
    /// order of the operator key.
    #[verifier::external_body]
    pub(crate) fn operators_by_owner(&self, owner: &String) -> (r: Vec<(String, Expiry)>)
        ensures
            forall|i: int, j: int| 0 <= i < j < r@.len() ==> str_lt(#[trigger] r@[i].0@, #[trigger] r@[j].0@),
            forall|i: int| 0 <= i < r@.len() ==> operators_of(*self).dom().contains((owner@, #[trigger] r@[i].0@))
                && operators_of(*self)[(owner@, r@[i].0@)] == r@[i].1,
            forall|op: Seq<char>| #[trigger] operators_of(*self).dom().contains((owner@, op))
                ==> exists|i: int| 0 <= i < r@.len() && #[trigger] r@[i].0@ == op,
    {
        let c = cw721_base::state::Cw721Contract::<cosmwasm_std::Empty, cosmwasm_std::Empty>::default();
        let a = cosmwasm_std::Addr::unchecked(owner.as_str());
        c.operators.prefix(&a).range(&self.mem, None, None, cosmwasm_std::Order::Ascending).map(|item| {
            let (k, v) = item.unwrap();
            let e = match v {
                cw721::Expiration::AtHeight(h) => Expiry::AtHeight(h),
                cw721::Expiration::AtTime(t) => Expiry::AtTime(t.nanos()),
                cw721::Expiration::Never {} => Expiry::Never,
            };
            (String::from_utf8_lossy(&k).to_string(), e)
        }).collect()
    }

    /// Relies on `cw721_base`'s `Cw721Contract::token_count`: reads the
    /// counter item, zero when never written.
    #[verifier::external_body]
    pub(crate) fn count_get(&self) -> (r: u64)
        ensures
            r == token_count_of(*self),
    {
        let c = cw721_base::state::Cw721Contract::<cosmwasm_std::Empty, cosmwasm_std::Empty>::default();
        c.token_count(&self.mem).unwrap()
    }

    /// Relies on `cw721_base`'s `Cw721Contract::increment_tokens`: adds one
    /// to the counter item, leaving every table untouched. The caller keeps
    /// the counter below `u64::MAX` so the addition cannot overflow.
    #[verifier::external_body]
    pub(crate) fn count_increment(&mut self)
        requires
            token_count_of(*old(self)) < u64::MAX,
        ensures
            token_count_of(*final(self)) == token_count_of(*old(self)) + 1,
            same_tokens(*old(self), *final(self)),
            same_iscc(*old(self), *final(self)),
            same_iscc_data(*old(self), *final(self)),
            same_licensing(*old(self), *final(self)),
            same_licenses(*old(self), *final(self)),
            same_operators(*old(self), *final(self)),
            same_info(*old(self), *final(self)),
    {
        let c = cw721_base::state::Cw721Contract::<cosmwasm_std::Empty, cosmwasm_std::Empty>::default();
        c.increment_tokens(&mut self.mem).unwrap();
    }

    /// Relies on `cw_storage_plus::Item::save` through `cw721_base`'s
    /// `Cw721Contract::contract_info`: stores the contract metadata,
    /// leaving every table untouched.
    #[verifier::external_body]
    pub(crate) fn info_save(&mut self, name: &String, symbol: &String)
        ensures
            contract_info_of(*final(self)) == Some((name@, symbol@)),
            same_tokens(*old(self), *final(self)),
            same_iscc(*old(self), *final(self)),
            same_iscc_data(*old(self), *final(self)),
            same_licensing(*old(self), *final(self)),
            same_licenses(*old(self), *final(self)),
            same_operators(*old(self), *final(self)),
            same_count(*old(self), *final(self)),
    {
        let c = cw721_base::state::Cw721Contract::<cosmwasm_std::Empty, cosmwasm_std::Empty>::default();
        let info = cw721::ContractInfoResponse { name: name.clone(), symbol: symbol.clone() };
        c.contract_info.save(&mut self.mem, &info).unwrap();
    }

    /// Relies on `cw_storage_plus::Item::may_load` through `cw721_base`'s
    /// `Cw721Contract::contract_info`: returns the stored metadata, or
    /// `None` when the contract was never instantiated.
    #[verifier::external_body]
    pub(crate) fn info_load(&self) -> (r: Option<(String, String)>)
        ensures
            match r {
                Some(p) => contract_info_of(*self) == Some((p.0@, p.1@)),
                None => contract_info_of(*self).is_none(),
            },
    {
        let c = cw721_base::state::Cw721Contract::<cosmwasm_std::Empty, cosmwasm_std::Empty>::default();
        c.contract_info.may_load(&self.mem).unwrap().map(|i| (i.name, i.symbol))
    }
}

} // verus!
