//! The export endpoint: a single, non-paginated request that turns a list
//! of bibliographic identifiers into formatted text.

use crate::endpoints::search::spec_sort_value;
use crate::endpoints::Sort;
use crate::endpoints::SortView;
use crate::error::AdsError;
use vstd::prelude::*;

verus! {

/// The output formats the export endpoint supports, including a free-form
/// custom format that needs a format string.
#[derive(Debug, Clone, Copy, PartialEq, Eq, Structural)]
#[must_use]
#[non_exhaustive]
pub enum FormatType {
    BibTeX,
    BibTeXABS,
    ADS,
    EndNote,
    ProCite,
    RIS,
    RefWorks,
    RSS,
    MEDLARS,
    DCXML,
    REFXML,
    REFABSXML,
    AASTeX,
    Icarus,
    MNRAS,
    SoPh,
    VOTable,
    Custom,
}

impl FormatType {
    /// The lower-cased wire name of this format, as it appears in the
    /// export endpoint's path.
    pub open spec fn spec_wire_name(self) -> Seq<char> {
        match self {
            FormatType::BibTeX => "bibtex"@,
            FormatType::BibTeXABS => "bibtexabs"@,
            FormatType::ADS => "ads"@,
            FormatType::EndNote => "endnote"@,
            FormatType::ProCite => "procite"@,
            FormatType::RIS => "ris"@,
            FormatType::RefWorks => "refworks"@,
            FormatType::RSS => "rss"@,
            FormatType::MEDLARS => "medlars"@,
            FormatType::DCXML => "dcxml"@,
            FormatType::REFXML => "refxml"@,
            FormatType::REFABSXML => "refabsxml"@,
            FormatType::AASTeX => "aastex"@,
            FormatType::Icarus => "icarus"@,
            FormatType::MNRAS => "mnras"@,
            FormatType::SoPh => "soph"@,
            FormatType::VOTable => "votable"@,
            FormatType::Custom => "custom"@,
        }
    }

    /// The lower-cased wire name of this format.
    pub fn wire_name(&self) -> (r: &'static str)
        ensures
            r@ == self.spec_wire_name(),
    {
        match self {
            FormatType::BibTeX => "bibtex",
            FormatType::BibTeXABS => "bibtexabs",
            FormatType::ADS => "ads",
            FormatType::EndNote => "endnote",
            FormatType::ProCite => "procite",
            FormatType::RIS => "ris",
            FormatType::RefWorks => "refworks",
            FormatType::RSS => "rss",
            FormatType::MEDLARS => "medlars",
            FormatType::DCXML => "dcxml",
            FormatType::REFXML => "refxml",
            FormatType::REFABSXML => "refabsxml",
            FormatType::AASTeX => "aastex",
            FormatType::Icarus => "icarus",
            FormatType::MNRAS => "mnras",
            FormatType::SoPh => "soph",
            FormatType::VOTable => "votable",
            FormatType::Custom => "custom",
        }
    }

    /// Parses a lower-cased wire name back into a format.
    ///
    /// # Errors
    ///
    /// Fails with [`AdsError::Json`] exactly when the name is none of the
    /// known wire names.
    pub fn from_str(s: &str) -> (r: Result<Self, AdsError>)
        ensures
            r matches Ok(f) ==> s@ == f.spec_wire_name(),
            r matches Err(e) ==> e is Json && (forall|f: FormatType| s@ != f.spec_wire_name()),
    {
        let t = s.to_owned();
        let r = if t == String::from_str("bibtex") {
            Ok(FormatType::BibTeX)
        } else if t == String::from_str("bibtexabs") {
            Ok(FormatType::BibTeXABS)
        } else if t == String::from_str("ads") {
            Ok(FormatType::ADS)
        } else if t == String::from_str("endnote") {
            Ok(FormatType::EndNote)
        } else if t == String::from_str("procite") {
            Ok(FormatType::ProCite)
        } else if t == String::from_str("ris") {
            Ok(FormatType::RIS)
        } else if t == String::from_str("refworks") {
            Ok(FormatType::RefWorks)
        } else if t == String::from_str("rss") {
            Ok(FormatType::RSS)
        } else if t == String::from_str("medlars") {
            Ok(FormatType::MEDLARS)
        } else if t == String::from_str("dcxml") {
            Ok(FormatType::DCXML)
        } else if t == String::from_str("refxml") {
            Ok(FormatType::REFXML)
        } else if t == String::from_str("refabsxml") {
            Ok(FormatType::REFABSXML)
        } else if t == String::from_str("aastex") {
            Ok(FormatType::AASTeX)
        } else if t == String::from_str("icarus") {
            Ok(FormatType::Icarus)
        } else if t == String::from_str("mnras") {
            Ok(FormatType::MNRAS)
        } else if t == String::from_str("soph") {
            Ok(FormatType::SoPh)
        } else if t == String::from_str("votable") {
            Ok(FormatType::VOTable)
        } else if t == String::from_str("custom") {
            Ok(FormatType::Custom)
        } else {
            Err(AdsError::Json(String::from_str("unknown export format")))
        };
        proof {
            if r is Err {
                assert forall|f: FormatType| s@ != f.spec_wire_name() by {
                    match f {
                        FormatType::BibTeX => assert(s@ != "bibtex"@),
                        FormatType::BibTeXABS => assert(s@ != "bibtexabs"@),
                        FormatType::ADS => assert(s@ != "ads"@),
                        FormatType::EndNote => assert(s@ != "endnote"@),
                        FormatType::ProCite => assert(s@ != "procite"@),
                        FormatType::RIS => assert(s@ != "ris"@),
                        FormatType::RefWorks => assert(s@ != "refworks"@),
                        FormatType::RSS => assert(s@ != "rss"@),
                        FormatType::MEDLARS => assert(s@ != "medlars"@),
                        FormatType::DCXML => assert(s@ != "dcxml"@),
                        FormatType::REFXML => assert(s@ != "refxml"@),
                        FormatType::REFABSXML => assert(s@ != "refabsxml"@),
                        FormatType::AASTeX => assert(s@ != "aastex"@),
                        FormatType::Icarus => assert(s@ != "icarus"@),
                        FormatType::MNRAS => assert(s@ != "mnras"@),
                        FormatType::SoPh => assert(s@ != "soph"@),
                        FormatType::VOTable => assert(s@ != "votable"@),
                        FormatType::Custom => assert(s@ != "custom"@),
                    }
                }
            }
        }
        r
    }
}

/// A builder for one export request: the output format, the documents to
/// format, an optional multi-key sort, and the format string a custom
/// format needs.
#[derive(Clone)]
#[must_use]
pub struct Export {
    format_type: FormatType,
    bibcode: Vec<String>,
    sort: Vec<Sort>,
    format: Option<String>,
}

/// The mathematical content of an [`Export`].
pub struct ExportView {
    pub format_type: FormatType,
    pub bibcode: Seq<Seq<char>>,
    pub sort: Seq<SortView>,
    pub format: Option<Seq<char>>,
}

impl View for Export {
    type V = ExportView;

    closed spec fn view(&self) -> ExportView {
        ExportView {
            format_type: self.format_type,
            bibcode: self.bibcode.deep_view(),
            sort: Seq::new(self.sort@.len(), |i: int| self.sort@[i]@),
            format: match self.format {
                Some(ref f) => Some(f@),
                None => None,
            },
        }
    }
}

/// Everything the transport needs for the single export request: the
/// endpoint path carrying the lower-cased format name, and the three body
/// fields. `sort` is the comma-joined rendering, absent when no sort key
/// was added; `format` is the custom format string, absent when none was
/// set.
pub struct ExportPayload {
    pub path: String,
    pub bibcode: Vec<String>,
    pub sort: Option<String>,
    pub format: Option<String>,
}

/// The mathematical content of an [`ExportPayload`].
pub struct ExportPayloadView {
    pub path: Seq<char>,
    pub bibcode: Seq<Seq<char>>,
    pub sort: Option<Seq<char>>,
    pub format: Option<Seq<char>>,
}

impl View for ExportPayload {
    type V = ExportPayloadView;

    open spec fn view(&self) -> ExportPayloadView {
        ExportPayloadView {
            path: self.path@,
            bibcode: self.bibcode.deep_view(),
            sort: match self.sort {
                Some(ref s) => Some(s@),
                None => None,
            },
            format: match self.format {
                Some(ref f) => Some(f@),
                None => None,
            },
        }
    }
}

/// The payload a well-formed export request serializes to.
pub open spec fn spec_export_payload(v: ExportView) -> ExportPayloadView {
    ExportPayloadView {
        path: "export/"@ + v.format_type.spec_wire_name(),
        bibcode: v.bibcode,
        sort: if v.sort.len() == 0 {
            None
        } else {
            Some(spec_sort_value(v.sort))
        },
        format: v.format,
    }
}

impl Export {
    /// Builds a new export request for the given format and identifiers.
    pub fn new(format_type: FormatType, bibcode: &[String]) -> (r: Self)
        ensures
            r@ == (ExportView {
                format_type,
                bibcode: bibcode.deep_view(),
                sort: Seq::<SortView>::empty(),
                format: None,
            }),
    {
        let r = Self {
            format_type,
            bibcode: clone_strings(bibcode),
            sort: Vec::new(),
            format: None,
        };
        proof {
            assert(r@.sort =~= Seq::<SortView>::empty());
        }
        r
    }

    /// Appends one sort key, rendered into the request body in insertion
    /// order.
    pub fn sort(self, field: Sort) -> (r: Self)
        ensures
            r@ == (ExportView { sort: self@.sort.push(field@), ..self@ }),
    {
        let ghost f = field@;
        let mut sorts = self.sort;
        sorts.push(field);
        let r = Self { sort: sorts, ..self };
        proof {
            assert(r@.sort =~= self@.sort.push(f));
        }
        r
    }

    /// Sets the custom format string. Required when the format is
    /// [`FormatType::Custom`]; ignored by the server otherwise.
    pub fn format(self, format: &str) -> (r: Self)
        ensures
            r@ == (ExportView { format: Some(format@), ..self@ }),
    {
        Self { format: Some(format.to_owned()), ..self }
    }

    /// Validates the request and serializes it to the payload of the one
    /// request to perform. No request may be dispatched when this fails.
    ///
    /// # Errors
    ///
    /// Fails with [`AdsError::MissingFormat`] exactly when the format is
    /// [`FormatType::Custom`] and no format string was set.
    pub fn prepare(&self) -> (r: Result<ExportPayload, AdsError>)
        ensures
            r matches Ok(p) ==> p@ == spec_export_payload(self@) && !(self@.format_type is Custom
                && self@.format is None),
            r matches Err(e) ==> e is MissingFormat && self@.format_type is Custom && self@.format
                is None,
    {
        if let FormatType::Custom = self.format_type {
            if self.format.is_none() {
                return Err(AdsError::MissingFormat);
            }
        }
        let mut path = String::from_str("export/");
        path.append(self.format_type.wire_name());
        let sort = if self.sort.len() == 0 {
            None
        } else {
            let rendered = crate::endpoints::search::render_sorts(&self.sort);
            proof {
                assert(rendered.deep_view() =~= crate::endpoints::search::spec_rendered_all(
                    self@.sort,
                ));
            }
            Some(crate::endpoints::comma_separated(&rendered))
        };
        let bibcode = clone_strings(self.bibcode.as_slice());
        let format = match self.format {
            Some(ref f) => Some(f.clone()),
            None => None,
        };
        let p = ExportPayload { path, bibcode, sort, format };
        proof {
            assert(p@ =~~= spec_export_payload(self@));
        }
        Ok(p)
    }
}

/// Clones a list of strings, entry for entry.
fn clone_strings(items: &[String]) -> (r: Vec<String>)
    ensures
        r.deep_view() == items.deep_view(),
{
    let mut out: Vec<String> = Vec::new();
    let mut i: usize = 0;
    while i < items.len()
        invariant
            i <= items@.len(),
            out@.len() == i as int,
            out.deep_view() =~= items.deep_view().take(i as int),
        decreases items@.len() - i,
    {
        let ghost prev = out.deep_view();
        out.push(vstd::slice::slice_index_get(items, i).clone());
        proof {
            assert forall|j: int| 0 <= j < i as int + 1 implies out.deep_view()[j]
                == items.deep_view().take(i as int + 1)[j] by {
                assert(out.deep_view()[j] == out@[j]@);
                if j < i as int {
                    assert(out@[j]@ == prev[j]);
                }
            }
            assert(out.deep_view() =~= items.deep_view().take(i as int + 1));
        }
        i += 1;
    }
    proof {
        assert(items.deep_view().take(items@.len() as int) =~= items.deep_view());
    }
    out
}

/// The formatted text carried by an export response, when its `export`
/// member is a string.
pub open spec fn spec_export_text(body: Seq<char>) -> Option<Seq<char>> {
    match crate::json::json_of_text(body) {
        None => None,
        Some(v) => match crate::json::json_member(v, "export"@) {
            None => None,
            Some(e) => crate::json::json_string(e),
        },
    }
}

/// Decodes one export response body: extracts the single string field
/// carrying the formatted text, or reports a malformed envelope.
pub fn parse_export_response(body: &str) -> (r: Result<String, AdsError>)
    ensures
        r matches Ok(s) ==> spec_export_text(body@) == Some(s@),
        r matches Err(e) ==> e is Json && spec_export_text(body@) is None,
{
    let v = match crate::json::parse_value(body) {
        Ok(v) => v,
        Err(e) => {
            return Err(AdsError::Json(crate::json::error_text(&e)));
        },
    };
    match crate::json::value_member(&v, "export") {
        Some(e) => match crate::json::value_string(e) {
            Some(s) => Ok(s.to_owned()),
            None => Err(AdsError::Json(String::from_str("export is not a string"))),
        },
        None => Err(AdsError::Json(String::from_str("missing export field"))),
    }
}

/// Extracts the bibcode of every drained document, in order, failing
/// fast at the first document that lacks one: exactly the precondition
/// check export requests need.
pub fn collect_bibcodes(docs: &Vec<Option<String>>) -> (r: Result<Vec<String>, AdsError>)
    ensures
        r matches Ok(bs) ==> bs@.len() == docs@.len() && (forall|i: int|
            0 <= i < docs@.len() ==> docs@[i] == Some(#[trigger] bs@[i])),
        r matches Err(e) ==> e is MissingBibcode && (exists|i: int|
            0 <= i < docs@.len() && docs@[i] is None),
{
    let mut out: Vec<String> = Vec::new();
    let mut i: usize = 0;
    while i < docs.len()
        invariant
            i <= docs@.len(),
            out@.len() == i as int,
            forall|j: int| 0 <= j < i as int ==> docs@[j] == Some(#[trigger] out@[j]),
        decreases docs@.len() - i,
    {
        let ghost prev = out@;
        match docs[i] {
            Some(ref b) => {
                out.push(b.clone());
                proof {
                    assert(docs@[i as int] == Some(out@[i as int]));
                    assert forall|j: int|
                        0 <= j < i as int + 1 implies docs@[j] == Some(
                        #[trigger] out@[j],
                    ) by {
                        if j < i as int {
                            assert(out@[j] == prev[j]);
                        }
                    }
                }
            },
            None => {
                return Err(AdsError::MissingBibcode);
            },
        }
        i += 1;
    }
    Ok(out)
}

} // verus!
