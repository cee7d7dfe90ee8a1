pub mod entities;
pub mod json;
pub mod laws;
pub mod log_companies;
pub mod mem_store;
pub mod requests;
pub mod responses;
pub mod save_company;
pub mod store;
pub mod strutil;
pub mod use_cases;

pub use requests::CreateCompanyRequest;
pub use requests::CreateCountryRequest;
