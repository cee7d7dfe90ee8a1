use vstd::prelude::*;

use crate::entities::Company;
use crate::entities::CompanyDto;
use crate::entities::Country;
use crate::store::find_country;
use crate::store::first_active;
use crate::store::join_by_continent;
use crate::store::join_by_country;
use crate::store::lemma_join_by_continent_snoc;
use crate::store::lemma_join_by_country_snoc;
use crate::store::CompanyRepository;
use crate::store::CountryRepository;
use crate::store::StoreError;
use crate::strutil::str_eq;

verus! {

/// The substitute store: both tables held in memory, in insertion order,
/// plus an optional injected connection failure.  While `fail_with` is set,
/// every operation reports that message as a store error, the way a broken
/// connection or an exhausted pool would.
pub struct MemStore {
    pub companies: Vec<Company>,
    pub countries: Vec<Country>,
    pub fail_with: Option<String>,
}

impl MemStore {
    /// An empty, healthy store.
    pub fn new() -> (s: MemStore)
        ensures
            s.companies@ == Seq::<Company>::empty(),
            s.countries@ == Seq::<Country>::empty(),
            s.fail_with is None,
    {
        MemStore { companies: Vec::new(), countries: Vec::new(), fail_with: None }
    }

    /// Breaks the connection: from now on every operation reports `message`.
    pub fn set_failure(&mut self, message: String)
        ensures
            final(self).companies == old(self).companies,
            final(self).countries == old(self).countries,
            final(self).fail_with == Some(message),
    {
        self.fail_with = Some(message);
    }
}

/// The index of the first country with the given name, if any.
fn find_country_index(countries: &Vec<Country>, name: &str) -> (r: Option<usize>)
    ensures
        match r {
            Some(j) => j < countries@.len() && find_country(countries@, name@) == Some(
                countries@[j as int],
            ),
            None => find_country(countries@, name@) is None,
        },
{
    let n = countries.len();
    let mut i: usize = 0;
    proof {
        assert(countries@.skip(0) =~= countries@);
    }
    while i < n
        invariant
            n == countries@.len(),
            0 <= i <= n,
            find_country(countries@, name@) == find_country(countries@.skip(i as int), name@),
        decreases n - i,
    {
        if str_eq(countries[i].name.as_str(), name) {
            proof {
                assert(countries@.skip(i as int)[0] == countries@[i as int]);
            }
            return Some(i);
        }
        proof {
            assert(countries@.skip(i as int)[0] == countries@[i as int]);
            assert(countries@.skip(i as int).drop_first() =~= countries@.skip(i as int + 1));
        }
        i = i + 1;
    }
    proof {
        assert(countries@.skip(n as int) =~= Seq::<Country>::empty());
    }
    None
}

impl CompanyRepository for MemStore {
    open spec fn companies(&self) -> Seq<Company> {
        self.companies@
    }

    open spec fn countries(&self) -> Seq<Country> {
        self.countries@
    }

    open spec fn failure(&self) -> Option<Seq<char>> {
        match self.fail_with {
            Some(m) => Some(m@),
            None => None,
        }
    }

    fn get_by_id(&self, id: &str) -> (r: Result<Company, StoreError>) {
        match &self.fail_with {
            Some(m) => {
                return Err(StoreError::Store(m.clone()));
            },
            None => {},
        }
        let n = self.companies.len();
        let mut i: usize = 0;
        proof {
            assert(self.companies@.skip(0) =~= self.companies@);
        }
        while i < n
            invariant
                self.fail_with is None,
                n == self.companies@.len(),
                0 <= i <= n,
                first_active(self.companies@, id@) == first_active(
                    self.companies@.skip(i as int),
                    id@,
                ),
            decreases n - i,
        {
            let candidate = &self.companies[i];
            proof {
                assert(self.companies@.skip(i as int)[0] == self.companies@[i as int]);
            }
            if candidate.deleted_at.is_none() && str_eq(candidate.id.as_str(), id) {
                proof {
                    assert(self.companies@.skip(i as int).len() > 0);
                    assert(first_active(self.companies@.skip(i as int), id@) == Some(
                        self.companies@[i as int],
                    ));
                }
                return Ok(candidate.duplicate());
            }
            proof {
                assert(self.companies@.skip(i as int).drop_first() =~= self.companies@.skip(
                    i as int + 1,
                ));
            }
            i = i + 1;
        }
        proof {
            assert(self.companies@.skip(n as int) =~= Seq::<Company>::empty());
        }
        Err(StoreError::NotFound)
    }

    fn get_by_country(&self, country_name: &str) -> (r: Result<Vec<CompanyDto>, StoreError>) {
        match &self.fail_with {
            Some(m) => {
                return Err(StoreError::Store(m.clone()));
            },
            None => {},
        }
        let n = self.companies.len();
        let mut out: Vec<CompanyDto> = Vec::new();
        let mut i: usize = 0;
        while i < n
            invariant
                self.fail_with is None,
                n == self.companies@.len(),
                0 <= i <= n,
                out@ == join_by_country(
                    self.companies@.take(i as int),
                    self.countries@,
                    country_name@,
                ),
            decreases n - i,
        {
            let c = &self.companies[i];
            proof {
                lemma_join_by_country_snoc(
                    self.companies@.take(i as int),
                    self.countries@,
                    country_name@,
                    self.companies@[i as int],
                );
                assert(self.companies@.take(i as int + 1) =~= self.companies@.take(
                    i as int,
                ).push(self.companies@[i as int]));
            }
            if c.deleted_at.is_none() && str_eq(c.country_name.as_str(), country_name) {
                match find_country_index(&self.countries, c.country_name.as_str()) {
                    Some(j) => {
                        let k = &self.countries[j];
                        out.push(
                            CompanyDto {
                                id: c.id.clone(),
                                name: c.name.clone(),
                                description: c.description.clone(),
                                created_at: c.created_at,
                                updated_at: c.updated_at,
                                deleted_at: c.deleted_at,
                                country_name: c.country_name.clone(),
                                continent_name: k.continent.clone(),
                            },
                        );
                        proof {
                            assert(out@ =~= join_by_country(
                                self.companies@.take(i as int + 1),
                                self.countries@,
                                country_name@,
                            ));
                        }
                    },
                    None => {},
                }
            }
            proof {
                assert(out@ =~= join_by_country(
                    self.companies@.take(i as int + 1),
                    self.countries@,
                    country_name@,
                ));
            }
            i = i + 1;
        }
        proof {
            assert(self.companies@.take(n as int) =~= self.companies@);
        }
        Ok(out)
    }

    fn get_by_continent(&self, continent_name: &str) -> (r: Result<Vec<CompanyDto>, StoreError>) {
        match &self.fail_with {
            Some(m) => {
                return Err(StoreError::Store(m.clone()));
            },
            None => {},
        }
        let n = self.companies.len();
        let mut out: Vec<CompanyDto> = Vec::new();
        let mut i: usize = 0;
        while i < n
            invariant
                self.fail_with is None,
                n == self.companies@.len(),
                0 <= i <= n,
                out@ == join_by_continent(
                    self.companies@.take(i as int),
                    self.countries@,
                    continent_name@,
                ),
            decreases n - i,
        {
            let c = &self.companies[i];
            proof {
                lemma_join_by_continent_snoc(
                    self.companies@.take(i as int),
                    self.countries@,
                    continent_name@,
                    self.companies@[i as int],
                );
                assert(self.companies@.take(i as int + 1) =~= self.companies@.take(
                    i as int,
                ).push(self.companies@[i as int]));
            }
            if c.deleted_at.is_none() {
                match find_country_index(&self.countries, c.country_name.as_str()) {
                    Some(j) => {
                        let k = &self.countries[j];
                        if str_eq(k.continent.as_str(), continent_name) {
                            out.push(
                                CompanyDto {
                                    id: c.id.clone(),
                                    name: c.name.clone(),
                                    description: c.description.clone(),
                                    created_at: c.created_at,
                                    updated_at: c.updated_at,
                                    deleted_at: c.deleted_at,
                                    country_name: c.country_name.clone(),
                                    continent_name: k.continent.clone(),
                                },
                            );
                            proof {
                                assert(out@ =~= join_by_continent(
                                    self.companies@.take(i as int + 1),
                                    self.countries@,
                                    continent_name@,
                                ));
                            }
                        }
                    },
                    None => {},
                }
            }
            proof {
                assert(out@ =~= join_by_continent(
                    self.companies@.take(i as int + 1),
                    self.countries@,
                    continent_name@,
                ));
            }
            i = i + 1;
        }
        proof {
            assert(self.companies@.take(n as int) =~= self.companies@);
        }
        Ok(out)
    }

    fn create(&mut self, company: Company) -> (r: Result<Company, StoreError>) {
        match &self.fail_with {
            Some(m) => {
                return Err(StoreError::Store(m.clone()));
            },
            None => {},
        }
        let mut record = company;
        record.before_create();
        let persisted = record.duplicate();
        self.companies.push(record);
        Ok(persisted)
    }
}

impl CountryRepository for MemStore {
    open spec fn countries(&self) -> Seq<Country> {
        self.countries@
    }

    open spec fn failure(&self) -> Option<Seq<char>> {
        match self.fail_with {
            Some(m) => Some(m@),
            None => None,
        }
    }

    fn create(&mut self, country: Country) -> (r: Result<Country, StoreError>) {
        match &self.fail_with {
            Some(m) => {
                return Err(StoreError::Store(m.clone()));
            },
            None => {},
        }
        match find_country_index(&self.countries, country.name.as_str()) {
            Some(_) => {
                let mut message = String::from_str("duplicate country name: ");
                message.append(country.name.as_str());
                Err(StoreError::Store(message))
            },
            None => {
                let persisted = country.duplicate();
                self.countries.push(country);
                Ok(persisted)
            },
        }
    }
}

} // verus!
