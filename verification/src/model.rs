use crate::error::AdsError;
use vstd::prelude::*;

verus! {

/// The databases the search API can attribute a document to. On the wire
/// each value is its lower-cased name.
#[derive(Debug, Clone, Copy, PartialEq, Eq, Structural)]
pub enum Database {
    Astronomy,
    Physics,
    General,
}

impl Database {
    /// The wire name of this database.
    pub open spec fn spec_wire_name(self) -> Seq<char> {
        match self {
            Database::Astronomy => "astronomy"@,
            Database::Physics => "physics"@,
            Database::General => "general"@,
        }
    }

    /// The wire name of this database.
    pub fn wire_name(&self) -> (r: &'static str)
        ensures
            r@ == self.spec_wire_name(),
    {
        match self {
            Database::Astronomy => "astronomy",
            Database::Physics => "physics",
            Database::General => "general",
        }
    }

    /// Parses a wire name back into a database.
    ///
    /// # Errors
    ///
    /// Fails with [`AdsError::Json`] exactly when the name is none of the
    /// known wire names.
    pub fn from_wire(s: &str) -> (r: Result<Self, AdsError>)
        ensures
            r matches Ok(d) ==> s@ == d.spec_wire_name(),
            r matches Err(e) ==> e is Json && (forall|d: Database| s@ != d.spec_wire_name()),
    {
        let t = s.to_owned();
        if t == String::from_str("astronomy") {
            Ok(Database::Astronomy)
        } else if t == String::from_str("physics") {
            Ok(Database::Physics)
        } else if t == String::from_str("general") {
            Ok(Database::General)
        } else {
            proof {
                assert forall|d: Database| s@ != d.spec_wire_name() by {
                    match d {
                        Database::Astronomy => assert(s@ != "astronomy"@),
                        Database::Physics => assert(s@ != "physics"@),
                        Database::General => assert(s@ != "general"@),
                    }
                }
            }
            Err(AdsError::Json(String::from_str("unknown database name")))
        }
    }
}

/// The document types the search API reports. On the wire each value is
/// its lower-cased name.
#[derive(Debug, Clone, Copy, PartialEq, Eq, Structural)]
pub enum DocType {
    Article,
    Eprint,
    Inproceedings,
    Inbook,
    Abstract,
    Book,
    Bookreview,
    Catalog,
    Circular,
    Erratum,
    Mastersthesis,
    Newsletter,
    Obituary,
    Phdthesis,
    Pressrelease,
    Proceedings,
    Proposal,
    Software,
    Talk,
    Techreport,
    Misc,
}

impl DocType {
    /// The wire name of this document type.
    pub open spec fn spec_wire_name(self) -> Seq<char> {
        match self {
            DocType::Article => "article"@,
            DocType::Eprint => "eprint"@,
            DocType::Inproceedings => "inproceedings"@,
            DocType::Inbook => "inbook"@,
            DocType::Abstract => "abstract"@,
            DocType::Book => "book"@,
            DocType::Bookreview => "bookreview"@,
            DocType::Catalog => "catalog"@,
            DocType::Circular => "circular"@,
            DocType::Erratum => "erratum"@,
            DocType::Mastersthesis => "mastersthesis"@,
            DocType::Newsletter => "newsletter"@,
            DocType::Obituary => "obituary"@,
            DocType::Phdthesis => "phdthesis"@,
            DocType::Pressrelease => "pressrelease"@,
            DocType::Proceedings => "proceedings"@,
            DocType::Proposal => "proposal"@,
            DocType::Software => "software"@,
            DocType::Talk => "talk"@,
            DocType::Techreport => "techreport"@,
            DocType::Misc => "misc"@,
        }
    }

    /// The wire name of this document type.
    pub fn wire_name(&self) -> (r: &'static str)
        ensures
            r@ == self.spec_wire_name(),
    {
        match self {
            DocType::Article => "article",
            DocType::Eprint => "eprint",
            DocType::Inproceedings => "inproceedings",
            DocType::Inbook => "inbook",
            DocType::Abstract => "abstract",
            DocType::Book => "book",
            DocType::Bookreview => "bookreview",
            DocType::Catalog => "catalog",
            DocType::Circular => "circular",
            DocType::Erratum => "erratum",
            DocType::Mastersthesis => "mastersthesis",
            DocType::Newsletter => "newsletter",
            DocType::Obituary => "obituary",
            DocType::Phdthesis => "phdthesis",
            DocType::Pressrelease => "pressrelease",
            DocType::Proceedings => "proceedings",
            DocType::Proposal => "proposal",
            DocType::Software => "software",
            DocType::Talk => "talk",
            DocType::Techreport => "techreport",
            DocType::Misc => "misc",
        }
    }
}

} // verus!
