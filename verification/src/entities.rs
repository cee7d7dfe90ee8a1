use vstd::prelude::*;

use crate::requests::CreateCompanyRequest;
use crate::requests::CreateCountryRequest;

verus! {

/// The identity a company carries before the creation path has assigned one:
/// the all-zero UUID, as text.
pub open spec fn nil_id() -> Seq<char> {
    "00000000-0000-0000-0000-000000000000"@
}

/// A persisted company.  The identity is a hyphenated UUID in text form, the
/// timestamps are microseconds since the Unix epoch.  `deleted_at` empty
/// means the record is active; every read operation filters on that.
#[derive(Debug)]
pub struct Company {
    pub id: String,
    pub name: String,
    pub description: String,
    pub country_name: String,
    pub created_at: Option<i64>,
    pub updated_at: Option<i64>,
    pub deleted_at: Option<i64>,
}

/// A persisted country.  The name is the natural key; there is no surrogate
/// identity.
#[derive(Debug)]
pub struct Country {
    pub name: String,
    pub continent: String,
}

/// The read projection of a company joined with its country.  Produced only
/// by the list-by-country and list-by-continent queries, never persisted.
/// The timestamps ride along but are left out of the serialized form.
#[derive(Debug)]
pub struct CompanyDto {
    pub id: String,
    pub name: String,
    pub description: String,
    pub created_at: Option<i64>,
    pub updated_at: Option<i64>,
    pub deleted_at: Option<i64>,
    pub country_name: String,
    pub continent_name: String,
}

/// Relies on `uuid::Uuid::new_v4` and its `Display` form: a fresh random
/// version-4 UUID rendered hyphenated, which is always 36 characters.
#[verifier::external_body]
fn fresh_uuid() -> (r: String)
    ensures
        r@.len() == 36,
{
    uuid::Uuid::new_v4().to_string()
}

/// Relies on `chrono::Utc::now`, read as microseconds since the Unix epoch.
/// Nothing is promised of the value: it depends on the machine's clock.
#[verifier::external_body]
fn now_micros() -> i64 {
    chrono::Utc::now().timestamp_micros()
}

impl Company {
    /// Runs exactly once, immediately before the insert: assigns a fresh
    /// identity, stamps creation and update time with the same instant, and
    /// clears the deletion mark.  The business fields are untouched.
    pub fn before_create(&mut self)
        ensures
            final(self).id@.len() == 36,
            final(self).name == old(self).name,
            final(self).description == old(self).description,
            final(self).country_name == old(self).country_name,
            final(self).created_at is Some,
            final(self).updated_at == final(self).created_at,
            final(self).deleted_at is None,
    {
        self.id = fresh_uuid();
        let now = now_micros();
        self.created_at = Some(now);
        self.updated_at = Some(now);
        self.deleted_at = None;
    }

    /// A field-for-field copy of the record.
    pub fn duplicate(&self) -> (c: Company)
        ensures
            c == *self,
    {
        Company {
            id: self.id.clone(),
            name: self.name.clone(),
            description: self.description.clone(),
            country_name: self.country_name.clone(),
            created_at: self.created_at,
            updated_at: self.updated_at,
            deleted_at: self.deleted_at,
        }
    }
}

impl Country {
    /// A field-for-field copy of the record.
    pub fn duplicate(&self) -> (c: Country)
        ensures
            c == *self,
    {
        Country { name: self.name.clone(), continent: self.continent.clone() }
    }
}

impl CompanyDto {
    /// A field-for-field copy of the projection.
    pub fn duplicate(&self) -> (d: CompanyDto)
        ensures
            d == *self,
    {
        CompanyDto {
            id: self.id.clone(),
            name: self.name.clone(),
            description: self.description.clone(),
            created_at: self.created_at,
            updated_at: self.updated_at,
            deleted_at: self.deleted_at,
            country_name: self.country_name.clone(),
            continent_name: self.continent_name.clone(),
        }
    }
}

/// Pure mapping from a create request to an unpersisted company: the business
/// fields are copied, identity and timestamps stay empty until
/// `before_create` runs.  Performs no I/O and never fails.
pub fn create_company_from_request(request: &CreateCompanyRequest) -> (company: Company)
    ensures
        company.id@ == nil_id(),
        company.name@ == request.name@,
        company.description@ == request.description@,
        company.country_name@ == request.country_name@,
        company.created_at is None,
        company.updated_at is None,
        company.deleted_at is None,
{
    Company {
        id: String::from_str("00000000-0000-0000-0000-000000000000"),
        name: request.name.clone(),
        description: request.description.clone(),
        country_name: request.country_name.clone(),
        created_at: None,
        updated_at: None,
        deleted_at: None,
    }
}

/// Pure mapping from a create request to a country; a country has no
/// generated fields, so this copies everything.
pub fn create_country_from_request(request: &CreateCountryRequest) -> (country: Country)
    ensures
        country.name@ == request.name@,
        country.continent@ == request.continent@,
{
    Country { name: request.name.clone(), continent: request.continent.clone() }
}

} // verus!
