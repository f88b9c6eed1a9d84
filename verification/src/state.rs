//! The records kept in the registry's co-indexed tables.

use vstd::prelude::*;

use crate::types::{Coin, CoinView};

verus! {

/// ISCC data derived from the media asset: the content fingerprint, the
/// derived sub-identifiers, and the token the content is linked to.
#[derive(Debug, Clone, PartialEq, Eq)]
pub struct IsccData {
    pub token_id: String,
    pub iscc_code: String,
    pub meta_id: String,
    pub data_id: String,
    pub instance_id: String,
    pub tophash: String,
}

/// Mathematical view of an [`IsccData`].
#[verifier::ext_equal]
pub struct IsccDataView {
    pub token_id: Seq<char>,
    pub iscc_code: Seq<char>,
    pub meta_id: Seq<char>,
    pub data_id: Seq<char>,
    pub instance_id: Seq<char>,
    pub tophash: Seq<char>,
}

impl View for IsccData {
    type V = IsccDataView;

    open spec fn view(&self) -> IsccDataView {
        IsccDataView {
            token_id: self.token_id@,
            iscc_code: self.iscc_code@,
            meta_id: self.meta_id@,
            data_id: self.data_id@,
            instance_id: self.instance_id@,
            tophash: self.tophash@,
        }
    }
}

/// Licensing terms of a token: where the license text lives and the price a
/// licensee has to pay.
#[derive(Debug, Clone, PartialEq, Eq)]
pub struct Licensing {
    pub token_id: String,
    pub url: String,
    pub price: Coin,
}

/// Mathematical view of a [`Licensing`].
#[verifier::ext_equal]
pub struct LicensingView {
    pub token_id: Seq<char>,
    pub url: Seq<char>,
    pub price: CoinView,
}

impl View for Licensing {
    type V = LicensingView;

    open spec fn view(&self) -> LicensingView {
        LicensingView { token_id: self.token_id@, url: self.url@, price: self.price@ }
    }
}

/// A recorded license purchase: the current entitlement of one licensee on
/// one token, holding the price actually paid.
#[derive(Debug, Clone, PartialEq, Eq)]
pub struct License {
    pub token_id: String,
    pub licensee: String,
    pub price: Coin,
}

/// Mathematical view of a [`License`].
#[verifier::ext_equal]
pub struct LicenseView {
    pub token_id: Seq<char>,
    pub licensee: Seq<char>,
    pub price: CoinView,
}

impl View for License {
    type V = LicenseView;

    open spec fn view(&self) -> LicenseView {
        LicenseView { token_id: self.token_id@, licensee: self.licensee@, price: self.price@ }
    }
}

} // verus!
