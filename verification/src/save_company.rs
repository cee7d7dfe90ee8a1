use vstd::prelude::*;

use crate::requests::CreateCompanyRequest;
use crate::strutil::views_of;

verus! {

/// The dump of a create request: one line per business field.
pub open spec fn save_lines(request: &CreateCompanyRequest) -> Seq<Seq<char>> {
    seq![
        "name: "@ + request.name@,
        "description: "@ + request.description@,
        "country: "@ + request.country_name@,
    ]
}

/// Writes a create request out for inspection instead of persisting it.
pub trait SaveCompany {
    /// Renders the request as the lines to dump; the transport layer does
    /// the printing.
    fn save(&self, request: &CreateCompanyRequest) -> (lines: Vec<String>)
        ensures
            views_of(lines@) == save_lines(request),
    ;
}

#[derive(Clone, Copy)]
pub struct SaveCompanyImpl;

impl SaveCompanyImpl {
    pub fn new() -> SaveCompanyImpl {
        SaveCompanyImpl {  }
    }
}

impl Default for SaveCompanyImpl {
    fn default() -> (s: SaveCompanyImpl)
        ensures
            s == (SaveCompanyImpl {  }),
    {
        SaveCompanyImpl {  }
    }
}

impl SaveCompany for SaveCompanyImpl {
    fn save(&self, request: &CreateCompanyRequest) -> (lines: Vec<String>) {
        let mut name_line = String::from_str("name: ");
        name_line.append(request.name.as_str());
        let mut description_line = String::from_str("description: ");
        description_line.append(request.description.as_str());
        let mut country_line = String::from_str("country: ");
        country_line.append(request.country_name.as_str());
        let mut lines: Vec<String> = Vec::new();
        lines.push(name_line);
        lines.push(description_line);
        lines.push(country_line);
        proof {
            assert(views_of(lines@) =~= save_lines(request));
        }
        lines
    }
}

} // verus!
