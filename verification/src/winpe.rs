//! Classification of WinPE WIM payloads by file name.

use vstd::prelude::*;
use crate::json::views;
use crate::linux_iso::{opt_payload_view, opt_str_view};
use crate::model::{PayloadKind, PayloadSpec, PayloadSpecView};
use crate::paths::{
    ends_with, evident_extension, evident_file_name, lemma_extension_has_file_name, path_extension,
    path_file_name, path_parts_fit,
};
use crate::plan_file::opt_view;
use crate::text::{ascii_lower, contains, contains_spec, text_eq, to_ascii_lowercase};

verus! {

/// Whether a lower-cased WIM file name follows the WinPE naming.
pub open spec fn winpe_name_supported(name: Seq<char>) -> bool {
    contains_spec(name, "winpe"@) || contains_spec(name, "boot"@)
}

/// The payload for a path with the given extension and file name: none
/// unless the extension is `wim` in any letter case.
pub open spec fn classify_spec(
    source_path: Seq<char>,
    extension: Option<Seq<char>>,
    file_name: Option<Seq<char>>,
) -> Option<PayloadSpecView> {
    match extension {
        None => None,
        Some(e) => if ascii_lower(e) != "wim"@ {
            None
        } else {
            match file_name {
                None => None,
                Some(n) => {
                    let supported = winpe_name_supported(ascii_lower(n));
                    Some(
                        PayloadSpecView {
                            source_path,
                            kind: PayloadKind::WinPe,
                            display_name: "Windows PE"@,
                            profile: if supported {
                                "winpe-wim"@
                            } else {
                                "unsupported-winpe"@
                            },
                            supported,
                            notes: seq![
                                if supported {
                                    "WinPE WIM payload follows the controlled v1 boot path."@
                                } else {
                                    "Only WinPE-style WIM payloads are supported in v1."@
                                },
                            ],
                        },
                    )
                },
            }
        },
    }
}

/// A `wim` file (in any letter case) is always classified as a WinPE
/// payload of that path; it is the supported `winpe-wim` profile exactly
/// when its lower-cased file name contains `winpe` or `boot`, and the
/// unsupported `unsupported-winpe` profile otherwise, each with its note.
pub proof fn wim_files_named_winpe_or_boot_are_supported(
    source_path: Seq<char>,
    extension: Seq<char>,
    file_name: Seq<char>,
)
    requires
        ascii_lower(extension) == "wim"@,
    ensures
        ({
            let named = contains_spec(ascii_lower(file_name), "winpe"@) || contains_spec(
                ascii_lower(file_name),
                "boot"@,
            );
            classify_spec(source_path, Some(extension), Some(file_name)) matches Some(p) && {
                &&& p.kind == PayloadKind::WinPe
                &&& p.source_path == source_path
                &&& p.display_name == "Windows PE"@
                &&& p.supported == named
                &&& named ==> p.profile == "winpe-wim"@ && p.notes == seq![
                    "WinPE WIM payload follows the controlled v1 boot path."@,
                ]
                &&& !named ==> p.profile == "unsupported-winpe"@ && p.notes == seq![
                    "Only WinPE-style WIM payloads are supported in v1."@,
                ]
            }
        }),
{
}

/// Nothing but a `wim` extension (in any letter case) is a WinPE payload.
pub proof fn only_wim_files_are_winpe(
    source_path: Seq<char>,
    extension: Option<Seq<char>>,
    file_name: Option<Seq<char>>,
)
    ensures
        classify_spec(source_path, extension, file_name) is Some ==> (extension matches Some(e)
            && ascii_lower(e) == "wim"@ && file_name is Some),
{
}

/// Classifies a path from its extension and file name.
pub fn classify(source_path: &str, extension: Option<&str>, file_name: Option<&str>) -> (r: Option<
    PayloadSpec,
>)
    ensures
        opt_payload_view(r) == classify_spec(source_path@, opt_str_view(extension), opt_str_view(file_name)),
{
    let extension = match extension {
        Some(e) => to_ascii_lowercase(e),
        None => {
            return None;
        },
    };
    if !text_eq(extension.as_str(), "wim") {
        return None;
    }
    let file_name = match file_name {
        Some(n) => to_ascii_lowercase(n),
        None => {
            return None;
        },
    };
    let supported = contains(file_name.as_str(), "winpe") || contains(file_name.as_str(), "boot");
    let profile = if supported {
        "winpe-wim".to_owned()
    } else {
        "unsupported-winpe".to_owned()
    };
    let note = if supported {
        "WinPE WIM payload follows the controlled v1 boot path.".to_owned()
    } else {
        "Only WinPE-style WIM payloads are supported in v1.".to_owned()
    };
    let notes = vec![note];
    let spec = PayloadSpec {
        source_path: source_path.to_owned(),
        kind: PayloadKind::WinPe,
        display_name: "Windows PE".to_owned(),
        profile,
        supported,
        notes,
    };
    assert(views(spec.notes@) =~= seq![note@]);
    Some(spec)
}

/// Classifies the payload at `path` if it is a WinPE WIM image.
pub fn detect(path: &str) -> (r: Option<PayloadSpec>)
    ensures
        exists|e: Option<Seq<char>>, n: Option<Seq<char>>|
            #[trigger] classify_spec(path@, e, n) == opt_payload_view(r) && path_parts_fit(
                path@,
                e,
                n,
            ),
        r matches Some(p) ==> {
            &&& p@.kind == PayloadKind::WinPe
            &&& p@.source_path == path@
            &&& exists|e: Seq<char>, n: Seq<char>|
                #![trigger classify_spec(path@, Some(e), Some(n))]
                ascii_lower(e) == "wim"@ && classify_spec(path@, Some(e), Some(n)) == Some(p@)
        },
        evident_extension(path@) matches Some(x) ==> (ascii_lower(x) == "wim"@ <==> r is Some),
        evident_extension(path@) matches Some(x) ==> (r matches Some(p) ==> exists|f: Seq<char>|
            #[trigger] classify_spec(path@, Some(x), Some(f)) == Some(p@) && ends_with(
                f,
                evident_file_name(path@)->0,
            ) && ends_with(path@, f)),
{
    let extension = path_extension(path);
    let file_name = path_file_name(path);
    let r = match (&extension, &file_name) {
        (Some(e), Some(n)) => classify(path, Some(e.as_str()), Some(n.as_str())),
        (Some(e), None) => classify(path, Some(e.as_str()), None),
        (None, _) => None,
    };
    proof {
        let e = opt_view(extension);
        let n = opt_view(file_name);
        assert(path_parts_fit(path@, e, n));
        assert(classify_spec(path@, e, n) == opt_payload_view(r));
        if evident_extension(path@) is Some {
            lemma_extension_has_file_name(path@);
            let f = n->0;
            assert(classify_spec(path@, e, Some(f)) == opt_payload_view(r));
        }
        if r is Some {
            let e = extension->0@;
            let n = file_name->0@;
            assert(classify_spec(path@, Some(e), Some(n)) == Some(r->0@));
        }
    }
    r
}

}
