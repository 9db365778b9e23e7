use vstd::prelude::*;
use encoding::Encoding;
use crate::text::{opt_view, utf8_text, utf8_to_string};
use crate::media::lower_chars;

verus! {

/// The name of the encoding that `encoding::label::encoding_from_whatwg_label`
/// finds for `label`, or nothing where the label is unknown.
pub uninterp spec fn spec_whatwg_encoding(label: Seq<char>) -> Option<Seq<char>>;

/// The text that the encoding labelled `label` decodes from `bytes` with
/// `DecoderTrap::Strict`, or nothing where it refuses them.
pub uninterp spec fn spec_decode_strict(label: Seq<char>, bytes: Seq<u8>) -> Option<Seq<char>>;

/// Calls `encoding::label::encoding_from_whatwg_label` and returns the found
/// encoding's name (`Encoding::name`). Claimed: the result is a function of
/// the label alone; the label `utf-8`, in any ASCII case, names UTF-8.
#[verifier::external_body]
pub(crate) fn whatwg_encoding_name(label: &str) -> (r: Option<String>)
    ensures
        opt_view(r) == spec_whatwg_encoding(label@),
        lower_chars(label@) == "utf-8"@ ==> opt_view(r) == Some(utf8_name()),
{
    encoding::label::encoding_from_whatwg_label(label).map(|e| e.name().to_string())
}

/// Calls `Encoding::decode` with `DecoderTrap::Strict` on the encoding that
/// `label` names. Claimed: the result is a function of the label and the
/// bytes alone; a refusal becomes nothing.
#[verifier::external_body]
pub(crate) fn decode_with_label(label: &str, bytes: &[u8]) -> (r: Option<String>)
    ensures
        opt_view(r) == spec_decode_strict(label@, bytes@),
{
    encoding::label::encoding_from_whatwg_label(label).and_then(
        |e| e.decode(bytes, encoding::DecoderTrap::Strict).ok(),
    )
}

/// The name of the UTF-8 encoding.
pub open spec fn utf8_name() -> Seq<char> {
    "utf-8"@
}

/// The name of the encoding that a charset label names: UTF-8 for the label
/// `utf-8` in any ASCII case, otherwise what the WHATWG label table gives.
pub open spec fn spec_label_encoding(label: Seq<char>) -> Option<Seq<char>> {
    if lower_chars(label) == utf8_name() {
        Some(utf8_name())
    } else {
        spec_whatwg_encoding(label)
    }
}

/// A text encoding of a request: UTF-8 when the request names no charset, or
/// the encoding that the charset label names.
pub struct TextEncoding {
    label: Option<String>,
    name: String,
}

impl TextEncoding {
    /// The charset label that chose the encoding, if any.
    pub closed spec fn label_spec(&self) -> Option<Seq<char>> {
        opt_view(self.label)
    }

    /// The encoding's name.
    pub closed spec fn name_spec(&self) -> Seq<char> {
        self.name@
    }

    /// A default encoding is UTF-8; a labelled one is what its label names.
    pub closed spec fn wf(&self) -> bool {
        match self.label {
            None => self.name@ == utf8_name(),
            Some(l) => spec_label_encoding(l@) == Some(self.name@),
        }
    }

    /// Whether the body is read as UTF-8 by `std::str::from_utf8`.
    pub open spec fn is_utf8_spec(&self) -> bool {
        self.name_spec() == utf8_name()
    }

    /// The default encoding: UTF-8.
    pub fn utf8() -> (r: TextEncoding)
        ensures
            r.wf(),
            r.label_spec() is None,
            r.name_spec() == utf8_name(),
    {
        proof {
            broadcast use vstd::string::group_string_axioms;
        }
        TextEncoding { label: None, name: "utf-8".to_string() }
    }

    /// The encoding that a charset label names, if the label is known.
    pub fn for_label(label: &str) -> (r: Option<TextEncoding>)
        ensures
            match r {
                Some(e) => e.wf() && e.label_spec() == Some(label@) && spec_label_encoding(label@)
                    == Some(e.name_spec()),
                None => spec_label_encoding(label@) is None,
            },
    {
        proof {
            broadcast use vstd::string::group_string_axioms;
        }
        match whatwg_encoding_name(label) {
            Some(name) => Some(TextEncoding { label: Some(label.to_string()), name }),
            None => None,
        }
    }

    /// Whether the body is read as UTF-8.
    pub fn is_utf8(&self) -> (r: bool)
        ensures
            r == self.is_utf8_spec(),
    {
        proof {
            broadcast use vstd::string::group_string_axioms;
        }
        let u = "utf-8".to_string();
        self.name == u
    }

    /// Decodes a body: with `std::str::from_utf8` for UTF-8, and with the
    /// labelled encoding (strictly) otherwise.
    pub fn decode(&self, bytes: &[u8]) -> (r: Option<String>)
        requires
            self.wf(),
        ensures
            opt_view(r) == spec_decode_text(self.label_spec(), self.name_spec(), bytes@),
            self.is_utf8_spec() ==> opt_view(r) == utf8_text(bytes@),
            !self.is_utf8_spec() ==> self.label_spec() is Some && opt_view(r) == spec_decode_strict(
                self.label_spec()->0,
                bytes@,
            ),
    {
        if self.is_utf8() {
            utf8_to_string(bytes)
        } else {
            match &self.label {
                Some(l) => decode_with_label(l.as_str(), bytes),
                None => {
                    proof {
                        assert(false);
                    }
                    None
                },
            }
        }
    }
}

/// The text of a body in an encoding given by its label and its name.
pub open spec fn spec_decode_text(label: Option<Seq<char>>, name: Seq<char>, bytes: Seq<u8>) -> Option<
    Seq<char>,
> {
    if name == utf8_name() {
        utf8_text(bytes)
    } else {
        match label {
            Some(l) => spec_decode_strict(l, bytes),
            None => None,
        }
    }
}

} // verus!
