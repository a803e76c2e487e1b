use vstd::prelude::*;

use crate::errors::{ErrorView, ImageError};
use crate::text::{
    dot_char, is_space_char, last_index_of, last_index_of_char, lemma_last_index_of_range,
    lemma_normalize_case_insensitive, lemma_normalize_dot_insensitive, lower_char_spec,
    normalize_format_string, normalize_spec, with_leading_dot,
};

verus! {

/// An output encoding format from the fixed registry.
#[derive(Clone, Copy, Debug, PartialEq, Eq, Structural)]
pub enum OutputFormat {
    Png,
    Jpeg,
    Webp,
    Gif,
    Bmp,
    Tiff,
}

/// The fixed, ordered registry of supported output format names.
pub open spec fn supported_formats_spec() -> Seq<Seq<char>> {
    seq!["png"@, "jpeg"@, "jpg"@, "webp"@, "gif"@, "bmp"@, "tiff"@]
}

/// Looks a normalized name up in the registry; `jpeg` and `jpg` are the same
/// format.
pub open spec fn format_of(s: Seq<char>) -> Option<OutputFormat> {
    if s == "png"@ {
        Some(OutputFormat::Png)
    } else if s == "jpeg"@ || s == "jpg"@ {
        Some(OutputFormat::Jpeg)
    } else if s == "webp"@ {
        Some(OutputFormat::Webp)
    } else if s == "gif"@ {
        Some(OutputFormat::Gif)
    } else if s == "bmp"@ {
        Some(OutputFormat::Bmp)
    } else if s == "tiff"@ {
        Some(OutputFormat::Tiff)
    } else {
        None
    }
}

fn lookup_format(s: &String) -> (r: Option<OutputFormat>)
    ensures
        r == format_of(s@),
{
    if *s == String::from_str("png") {
        Some(OutputFormat::Png)
    } else if *s == String::from_str("jpeg") || *s == String::from_str("jpg") {
        Some(OutputFormat::Jpeg)
    } else if *s == String::from_str("webp") {
        Some(OutputFormat::Webp)
    } else if *s == String::from_str("gif") {
        Some(OutputFormat::Gif)
    } else if *s == String::from_str("bmp") {
        Some(OutputFormat::Bmp)
    } else if *s == String::from_str("tiff") {
        Some(OutputFormat::Tiff)
    } else {
        None
    }
}

/// The list of supported output format strings, lowercase and without a dot,
/// in the registry's fixed order.
pub fn get_supported_formats() -> (r: Vec<String>)
    ensures
        r@.len() == supported_formats_spec().len(),
        forall|i: int|
            0 <= i < r@.len() ==> (#[trigger] r@[i])@ == supported_formats_spec()[i],
{
    let mut v: Vec<String> = Vec::new();
    v.push(String::from_str("png"));
    v.push(String::from_str("jpeg"));
    v.push(String::from_str("jpg"));
    v.push(String::from_str("webp"));
    v.push(String::from_str("gif"));
    v.push(String::from_str("bmp"));
    v.push(String::from_str("tiff"));
    v
}

/// Every listed registry name is accepted by the lookup, and every name the
/// lookup accepts stands in the listed registry: listing and lookup use one
/// registry.
pub proof fn lemma_registry_matches_lookup()
    ensures
        forall|i: int|
            0 <= i < supported_formats_spec().len() ==> format_of(
                #[trigger] supported_formats_spec()[i],
            ) is Some,
        forall|s: Seq<char>| format_of(s) is Some ==> supported_formats_spec().contains(s),
{
    assert forall|s: Seq<char>| format_of(s) is Some implies supported_formats_spec().contains(
        s,
    ) by {
        if s == "png"@ {
            assert(supported_formats_spec()[0] == s);
        } else if s == "jpeg"@ {
            assert(supported_formats_spec()[1] == s);
        } else if s == "jpg"@ {
            assert(supported_formats_spec()[2] == s);
        } else if s == "webp"@ {
            assert(supported_formats_spec()[3] == s);
        } else if s == "gif"@ {
            assert(supported_formats_spec()[4] == s);
        } else if s == "bmp"@ {
            assert(supported_formats_spec()[5] == s);
        } else {
            assert(supported_formats_spec()[6] == s);
        }
    }
}

/// The extension of a path: the part after the last dot of the last path
/// component, provided that dot is not the component's first character.
pub open spec fn extension_of(path: Seq<char>) -> Option<Seq<char>> {
    let comp = path.skip(last_index_of(path, '/') + 1);
    let d = last_index_of(comp, '.');
    if d <= 0 {
        None
    } else {
        Some(comp.skip(d + 1))
    }
}

/// The format resolved for an output path: a present override is normalized
/// and looked up; otherwise the path's extension is, with a missing extension
/// reported under that name. `Err` carries the string reported as
/// unsupported.
pub open spec fn infer_spec(path: Seq<char>, override_format: Option<Seq<char>>) -> Result<
    OutputFormat,
    Seq<char>,
> {
    match override_format {
        Some(f) => {
            let n = normalize_spec(f);
            match format_of(n) {
                Some(fmt) => Ok(fmt),
                None => Err(n),
            }
        },
        None => match extension_of(path) {
            None => Err("<missing extension>"@),
            Some(e) => {
                let n = normalize_spec(e);
                match format_of(n) {
                    Some(fmt) => Ok(fmt),
                    None => Err(n),
                }
            },
        },
    }
}

/// Ghost image of an optional override string.
pub open spec fn override_view(override_format: &Option<String>) -> Option<Seq<char>> {
    match override_format {
        Some(s) => Some(s@),
        None => None,
    }
}

/// Resolves the target encoding format from an explicit override or from the
/// output path's extension, failing with `UnsupportedFormat` on a name
/// outside the registry or a missing extension.
pub fn infer_output_format(output_path: &str, override_format: Option<String>) -> (r: Result<
    OutputFormat,
    ImageError,
>)
    ensures
        match infer_spec(output_path@, override_view(&override_format)) {
            Ok(fmt) => r matches Ok(g) && g == fmt,
            Err(name) => r matches Err(e) && e@ == ErrorView::Unsupported(name),
        },
{
    match override_format {
        Some(f) => {
            let n = normalize_format_string(f.as_str());
            match lookup_format(&n) {
                Some(fmt) => Ok(fmt),
                None => Err(ImageError::UnsupportedFormat { format: n }),
            }
        },
        None => {
            let plen = output_path.unicode_len();
            proof {
                lemma_last_index_of_range(output_path@, '/');
            }
            let start: usize = match last_index_of_char(output_path, '/') {
                Some(k) => k + 1,
                None => 0,
            };
            let comp = output_path.substring_char(start, plen);
            proof {
                assert(comp@ =~= output_path@.skip(last_index_of(output_path@, '/') + 1));
            }
            let d = last_index_of_char(comp, '.');
            match d {
                Some(k) if k > 0 => {
                    let clen = comp.unicode_len();
                    proof {
                        lemma_last_index_of_range(comp@, '.');
                    }
                    let ext = comp.substring_char(k + 1, clen);
                    proof {
                        assert(ext@ =~= comp@.skip(last_index_of(comp@, '.') + 1));
                    }
                    let n = normalize_format_string(ext);
                    match lookup_format(&n) {
                        Some(fmt) => Ok(fmt),
                        None => Err(ImageError::UnsupportedFormat { format: n }),
                    }
                },
                _ => Err(
                    ImageError::UnsupportedFormat {
                        format: String::from_str("<missing extension>"),
                    },
                ),
            }
        },
    }
}

/// Format inference is case-insensitive in the override: two override
/// strings whose characters agree up to ASCII case resolve identically, to
/// the same format or to the same reported name.
pub proof fn lemma_infer_case_insensitive(path: Seq<char>, s: Seq<char>, t: Seq<char>)
    requires
        s.len() == t.len(),
        forall|i: int|
            0 <= i < s.len() ==> lower_char_spec(s[i]) == lower_char_spec(#[trigger] t[i]),
    ensures
        infer_spec(path, Some(s)) == infer_spec(path, Some(t)),
{
    lemma_normalize_case_insensitive(s, t);
}

/// Format inference is dot-insensitive in the override: one leading dot on
/// an override that starts with neither whitespace nor a dot changes
/// nothing.
pub proof fn lemma_infer_dot_insensitive(path: Seq<char>, s: Seq<char>)
    requires
        s.len() > 0 ==> !is_space_char(s[0]),
        s.len() > 0 ==> s[0] != dot_char(),
    ensures
        infer_spec(path, Some(with_leading_dot(s))) == infer_spec(path, Some(s)),
{
    lemma_normalize_dot_insensitive(s);
}

} // verus!
