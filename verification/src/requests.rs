use vstd::prelude::*;

verus! {

/// Payload of `POST /api/v1/company`: the business fields of a company to
/// create.  Identity and timestamps are never part of the request; the
/// creation path assigns them.
pub struct CreateCompanyRequest {
    pub name: String,
    pub description: String,
    pub country_name: String,
}

/// Payload of `POST /api/v1/country`: a country is identified by its name
/// (natural key), so the request carries every persisted field.
pub struct CreateCountryRequest {
    pub name: String,
    pub continent: String,
}

} // verus!
