//! Classification of Linux ISO payloads by file name.

use vstd::prelude::*;
use crate::model::{PayloadKind, PayloadSpec, PayloadSpecView};
use crate::json::views;
use crate::paths::{
    ends_with, evident_extension, evident_file_name, lemma_extension_has_file_name, path_extension,
    path_file_name, path_parts_fit,
};
use crate::plan_file::opt_view;
use crate::text::{ascii_lower, contains, contains_spec, text_eq, to_ascii_lowercase};

verus! {

/// Display name, profile, support and note for a lower-cased ISO file name.
pub open spec fn iso_profile(name: Seq<char>) -> (Seq<char>, Seq<char>, bool, Seq<char>) {
    if contains_spec(name, "ubuntu"@) {
        ("Ubuntu Live"@, "ubuntu-live"@, true, "Profile supports the v1 Linux ISO loopback path."@)
    } else if contains_spec(name, "debian"@) {
        ("Debian Live"@, "debian-live"@, true, "Profile supports the v1 Linux ISO loopback path."@)
    } else if contains_spec(name, "fedora"@) {
        ("Fedora Live"@, "fedora-live"@, true, "Profile supports the v1 Linux ISO loopback path."@)
    } else {
        (
            "Unknown Linux ISO"@,
            "unsupported-linux-iso"@,
            false,
            "This ISO is not in the supported Linux profile list for v1."@,
        )
    }
}

/// The payload for a path with the given extension and file name: none
/// unless the extension is `iso` in any letter case.
pub open spec fn classify_spec(
    source_path: Seq<char>,
    extension: Option<Seq<char>>,
    file_name: Option<Seq<char>>,
) -> Option<PayloadSpecView> {
    match extension {
        None => None,
        Some(e) => if ascii_lower(e) != "iso"@ {
            None
        } else {
            match file_name {
                None => None,
                Some(n) => {
                    let (display_name, profile, supported, note) = iso_profile(ascii_lower(n));
                    Some(
                        PayloadSpecView {
                            source_path,
                            kind: PayloadKind::LinuxIso,
                            display_name,
                            profile,
                            supported,
                            notes: seq![note],
                        },
                    )
                },
            }
        },
    }
}

/// An `iso` file (in any letter case) is always classified as a Linux
/// ISO payload of that path. Its lower-cased file name picks the profile:
/// Ubuntu when it contains `ubuntu`, else Debian when it contains
/// `debian`, else Fedora when it contains `fedora`, each supported; any
/// other name is the unsupported unknown profile.
pub proof fn iso_files_take_the_profile_their_name_names(
    source_path: Seq<char>,
    extension: Seq<char>,
    file_name: Seq<char>,
)
    requires
        ascii_lower(extension) == "iso"@,
    ensures
        ({
            let name = ascii_lower(file_name);
            let ubuntu = contains_spec(name, "ubuntu"@);
            let debian = contains_spec(name, "debian"@);
            let fedora = contains_spec(name, "fedora"@);
            let known = "Profile supports the v1 Linux ISO loopback path."@;
            classify_spec(source_path, Some(extension), Some(file_name)) matches Some(p) && {
                &&& p.kind == PayloadKind::LinuxIso
                &&& p.source_path == source_path
                &&& p.supported == (ubuntu || debian || fedora)
                &&& ubuntu ==> p.profile == "ubuntu-live"@ && p.display_name == "Ubuntu Live"@
                &&& !ubuntu && debian ==> p.profile == "debian-live"@ && p.display_name
                    == "Debian Live"@
                &&& !ubuntu && !debian && fedora ==> p.profile == "fedora-live"@
                    && p.display_name == "Fedora Live"@
                &&& !ubuntu && !debian && !fedora ==> p.profile == "unsupported-linux-iso"@
                    && p.display_name == "Unknown Linux ISO"@ && p.notes == seq![
                    "This ISO is not in the supported Linux profile list for v1."@,
                ]
                &&& p.supported ==> p.notes == seq![known]
            }
        }),
{
}

/// Nothing but an `iso` extension (in any letter case) is a Linux ISO.
pub proof fn only_iso_files_are_linux_isos(
    source_path: Seq<char>,
    extension: Option<Seq<char>>,
    file_name: Option<Seq<char>>,
)
    ensures
        classify_spec(source_path, extension, file_name) is Some ==> (extension matches Some(e)
            && ascii_lower(e) == "iso"@ && file_name is Some),
{
}

/// The characters of an optional string slice.
pub open spec fn opt_str_view(o: Option<&str>) -> Option<Seq<char>> {
    match o {
        Some(s) => Some(s@),
        None => None,
    }
}

/// The views of an optional payload.
pub open spec fn opt_payload_view(o: Option<PayloadSpec>) -> Option<PayloadSpecView> {
    match o {
        Some(p) => Some(p@),
        None => None,
    }
}

/// Classifies a path from its extension and file name.
pub fn classify(source_path: &str, extension: Option<&str>, file_name: Option<&str>) -> (r: Option<
    PayloadSpec,
>)
    ensures
        opt_payload_view(r) == classify_spec(source_path@, opt_str_view(extension), opt_str_view(file_name)),
{
    let extension = match extension {
        Some(e) => to_ascii_lowercase(e),
        None => {
            return None;
        },
    };
    if !text_eq(extension.as_str(), "iso") {
        return None;
    }
    let file_name = match file_name {
        Some(n) => to_ascii_lowercase(n),
        None => {
            return None;
        },
    };
    let (display_name, profile, supported, note) = if contains(file_name.as_str(), "ubuntu") {
        (
            "Ubuntu Live".to_owned(),
            "ubuntu-live".to_owned(),
            true,
            "Profile supports the v1 Linux ISO loopback path.".to_owned(),
        )
    } else if contains(file_name.as_str(), "debian") {
        (
            "Debian Live".to_owned(),
            "debian-live".to_owned(),
            true,
            "Profile supports the v1 Linux ISO loopback path.".to_owned(),
        )
    } else if contains(file_name.as_str(), "fedora") {
        (
            "Fedora Live".to_owned(),
            "fedora-live".to_owned(),
            true,
            "Profile supports the v1 Linux ISO loopback path.".to_owned(),
        )
    } else {
        (
            "Unknown Linux ISO".to_owned(),
            "unsupported-linux-iso".to_owned(),
            false,
            "This ISO is not in the supported Linux profile list for v1.".to_owned(),
        )
    };
    let notes = vec![note];
    let spec = PayloadSpec {
        source_path: source_path.to_owned(),
        kind: PayloadKind::LinuxIso,
        display_name,
        profile,
        supported,
        notes,
    };
    assert(views(spec.notes@) =~= seq![iso_profile(file_name@).3]);
    Some(spec)
}

/// Classifies the payload at `path` if it is a Linux ISO.
pub fn detect(path: &str) -> (r: Option<PayloadSpec>)
    ensures
        exists|e: Option<Seq<char>>, n: Option<Seq<char>>|
            #[trigger] classify_spec(path@, e, n) == opt_payload_view(r) && path_parts_fit(
                path@,
                e,
                n,
            ),
        r matches Some(p) ==> {
            &&& p@.kind == PayloadKind::LinuxIso
            &&& p@.source_path == path@
            &&& exists|e: Seq<char>, n: Seq<char>|
                #![trigger classify_spec(path@, Some(e), Some(n))]
                ascii_lower(e) == "iso"@ && classify_spec(path@, Some(e), Some(n)) == Some(p@)
        },
        evident_extension(path@) matches Some(x) ==> (ascii_lower(x) == "iso"@ <==> r is Some),
        evident_extension(path@) matches Some(x) ==> (r matches Some(p) ==> exists|f: Seq<char>|
            #[trigger] classify_spec(path@, Some(x), Some(f)) == Some(p@) && ends_with(
                f,
                evident_file_name(path@)->0,
            ) && ends_with(path@, f)),
{
    let extension = path_extension(path);
    let file_name = path_file_name(path);
    let r = match (&extension, &file_name) {
        (Some(e), Some(n)) => classify(path, Some(e.as_str()), Some(n.as_str())),
        (Some(e), None) => classify(path, Some(e.as_str()), None),
        (None, _) => None,
    };
    proof {
        let e = opt_view(extension);
        let n = opt_view(file_name);
        assert(path_parts_fit(path@, e, n));
        assert(classify_spec(path@, e, n) == opt_payload_view(r));
        if evident_extension(path@) is Some {
            lemma_extension_has_file_name(path@);
            let f = n->0;
            assert(classify_spec(path@, e, Some(f)) == opt_payload_view(r));
        }
        if r is Some {
            let e = extension->0@;
            let n = file_name->0@;
            assert(classify_spec(path@, Some(e), Some(n)) == Some(r->0@));
        }
    }
    r
}

}
