//! Header extraction: one scan over the header pairs, matching the five
//! recognized names case-insensitively, where a later occurrence of a name
//! overwrites an earlier one and the `from` value is ASCII-lowercased.

use vstd::prelude::*;

use crate::strutil::ascii_lower_str;
use crate::strutil::lower_seq;
use crate::strutil::str_eq;

verus! {

/// The fields pulled out of a request's headers. Absent headers stay `None`;
/// requiredness is enforced downstream.
pub struct ExtractedFields {
    pub to: Option<String>,
    pub from: Option<String>,
    pub subject: Option<String>,
    pub reply_to: Option<String>,
    pub api_key: Option<String>,
}

/// Mathematical model of `ExtractedFields`.
pub struct FieldsModel {
    pub to: Option<Seq<char>>,
    pub from: Option<Seq<char>>,
    pub subject: Option<Seq<char>>,
    pub reply_to: Option<Seq<char>>,
    pub api_key: Option<Seq<char>>,
}

impl View for ExtractedFields {
    type V = FieldsModel;

    open spec fn view(&self) -> FieldsModel {
        FieldsModel {
            to: self.to.deep_view(),
            from: self.from.deep_view(),
            subject: self.subject.deep_view(),
            reply_to: self.reply_to.deep_view(),
            api_key: self.api_key.deep_view(),
        }
    }
}

/// No header seen yet: every field absent.
pub open spec fn empty_fields() -> FieldsModel {
    FieldsModel { to: None, from: None, subject: None, reply_to: None, api_key: None }
}

/// The effect of one header pair on the fields gathered so far: a recognized
/// name (compared ASCII-case-insensitively) overwrites its field, `from` is
/// stored ASCII-lowercased, any other name changes nothing.
pub open spec fn apply_header(f: FieldsModel, name: Seq<char>, value: Seq<char>) -> FieldsModel {
    let n = lower_seq(name);
    if n == "to"@ {
        FieldsModel { to: Some(value), ..f }
    } else if n == "from"@ {
        FieldsModel { from: Some(lower_seq(value)), ..f }
    } else if n == "subject"@ {
        FieldsModel { subject: Some(value), ..f }
    } else if n == "reply-to"@ {
        FieldsModel { reply_to: Some(value), ..f }
    } else if n == "api-key"@ {
        FieldsModel { api_key: Some(value), ..f }
    } else {
        f
    }
}

/// The fields extracted from a whole header sequence, scanned left to right,
/// so that the last occurrence of a repeated name wins.
pub open spec fn extract_model(headers: Seq<(Seq<char>, Seq<char>)>) -> FieldsModel
    decreases headers.len(),
{
    if headers.len() == 0 {
        empty_fields()
    } else {
        apply_header(extract_model(headers.drop_last()), headers.last().0, headers.last().1)
    }
}

/// Scan the headers once and gather the recognized fields.
pub fn extract_fields(headers: &Vec<(String, String)>) -> (r: ExtractedFields)
    ensures
        r@ == extract_model(headers.deep_view()),
{
    let mut f = ExtractedFields { to: None, from: None, subject: None, reply_to: None, api_key: None };
    let mut i: usize = 0;
    while i < headers.len()
        invariant
            i <= headers@.len(),
            f@ == extract_model(headers.deep_view().take(i as int)),
        decreases headers@.len() - i,
    {
        let name = &headers[i].0;
        let value = &headers[i].1;
        let lname = ascii_lower_str(name.as_str());
        if str_eq(lname.as_str(), "to") {
            f.to = Some(value.clone());
        } else if str_eq(lname.as_str(), "from") {
            f.from = Some(ascii_lower_str(value.as_str()));
        } else if str_eq(lname.as_str(), "subject") {
            f.subject = Some(value.clone());
        } else if str_eq(lname.as_str(), "reply-to") {
            f.reply_to = Some(value.clone());
        } else if str_eq(lname.as_str(), "api-key") {
            f.api_key = Some(value.clone());
        }
        proof {
            let dv = headers.deep_view();
            assert(dv.take(i + 1).drop_last() =~= dv.take(i as int));
            assert(dv.take(i + 1).last() == dv[i as int]);
        }
        i += 1;
    }
    proof {
        assert(headers.deep_view().take(headers@.len() as int) =~= headers.deep_view());
    }
    f
}

} // verus!
