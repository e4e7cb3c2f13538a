//! What goes into a release of the language server: how the versions are
//! named, what is built for a target and how it is packed, and what is
//! changed in the manifest of the editor extension.
//!
//! Nothing here touches a file or starts a program; this module decides, and
//! its caller acts.

use vstd::prelude::*;
use crate::text::{
    chars_of, contains, occurs_in, replace, replaced, same_chars, split_once, string_of,
};

verus! {

pub const VERSION_STABLE: &'static str = "0.9";

pub const VERSION_NIGHTLY: &'static str = "0.10";

/// The version of the extension while it is developed, as its manifest
/// holds it.
pub const VERSION_DEV: &'static str = "0.11";

/// The ref of the branch that stable releases are made from.
pub const RELEASE_REF: &'static str = "refs/heads/release";

/// What is released.
#[derive(Debug, PartialEq, Eq)]
pub struct Dist {
    /// The patch version of the extension; without one, only the server is
    /// built.
    pub client_patch_version: Option<String>,
    /// Whether the server is built with zig.
    pub zig: bool,
}

/// How a release of the extension is tagged.
#[derive(Debug, Clone, Copy, PartialEq, Eq, Structural)]
pub enum ReleaseTag {
    /// With the date of the release.
    Date,
    /// As `nightly`.
    Nightly,
}

/// A release of the extension.
#[derive(Debug, PartialEq, Eq)]
pub struct ClientRelease {
    pub version: String,
    pub release_tag: ReleaseTag,
}

/// A release: the name under which the server is released, and the release
/// of the extension, where there is one.
#[derive(Debug, PartialEq, Eq)]
pub struct Release {
    pub server_release: String,
    pub client: Option<ClientRelease>,
}

/// Whether a release from this ref is a stable one.
pub fn is_stable(github_ref: &str) -> (stable: bool)
    ensures
        stable == (github_ref@ == RELEASE_REF@),
{
    same_chars(&chars_of(github_ref), &chars_of(RELEASE_REF))
}

/// The version of the extension: the stable or the nightly version, a dot,
/// and the patch version.
pub open spec fn client_version(stable: bool, patch_version: Seq<char>) -> Seq<char> {
    if stable {
        VERSION_STABLE@ + "."@ + patch_version
    } else {
        VERSION_NIGHTLY@ + "."@ + patch_version
    }
}

impl Dist {
    /// What is released: with a patch version, the server under the version
    /// of the extension followed by `-standalone`, and the extension, tagged
    /// with the date where the release is stable and as nightly otherwise;
    /// without one, the server alone, as `0.0.0-standalone`.
    pub fn release(&self, stable: bool) -> (release: Release)
        ensures
            match self.client_patch_version {
                Some(patch_version) => {
                    &&& release.server_release@ == client_version(stable, patch_version@)
                        + "-standalone"@
                    &&& release.client matches Some(client)
                    &&& client.version@ == client_version(stable, patch_version@)
                    &&& client.release_tag == if stable {
                        ReleaseTag::Date
                    } else {
                        ReleaseTag::Nightly
                    }
                },
                None => {
                    &&& release.server_release@ == "0.0.0-standalone"@
                    &&& release.client is None
                },
            },
    {
        match &self.client_patch_version {
            Some(patch_version) => {
                let mut version = String::from_str(
                    if stable {
                        VERSION_STABLE
                    } else {
                        VERSION_NIGHTLY
                    },
                );
                version.append(".");
                version.append(patch_version.as_str());
                let mut server_release = version.clone();
                server_release.append("-standalone");
                Release {
                    server_release,
                    client: Some(
                        ClientRelease {
                            version,
                            release_tag: if stable {
                                ReleaseTag::Date
                            } else {
                                ReleaseTag::Nightly
                            },
                        },
                    ),
                }
            },
            None => Release { server_release: String::from_str("0.0.0-standalone"), client: None },
        }
    }
}

/// What the server is built for.
#[derive(Debug, PartialEq, Eq)]
pub struct Target {
    /// The target triple.
    pub name: String,
    /// The version of the C library that the target is built against, where
    /// one is named.
    pub libc_suffix: Option<String>,
    /// The name of the file that holds the server.
    pub server_name: String,
    /// The name of the file that holds the debug symbols, where there is
    /// one.
    pub symbols_name: Option<String>,
    /// The name under which the server is released.
    pub artifact_name: String,
}

/// Whether a target triple is one of Windows.
pub open spec fn is_windows_name(name: Seq<char>) -> bool {
    occurs_in("-windows-"@, name)
}

/// What programs end in on a target.
pub open spec fn exe_suffix(name: Seq<char>) -> Seq<char> {
    if is_windows_name(name) {
        ".exe"@
    } else {
        ""@
    }
}

impl Target {
    /// Whether this is the target that `target` names: the target triple is
    /// what stands before the first dot, and the version of the C library
    /// what stands after it; without a dot, all of `target` is the triple.
    pub open spec fn names(self, target: Seq<char>) -> bool {
        &&& match self.libc_suffix {
            Some(suffix) => target == self.name@ + seq!['.'] + suffix@ && !self.name@.contains('.'),
            None => target == self.name@ && !target.contains('.'),
        }
        &&& self.server_name@ == "wgsl-analyzer"@ + exe_suffix(self.name@)
        &&& self.artifact_name@ == "wgsl-analyzer-"@ + self.name@ + exe_suffix(self.name@)
        &&& match self.symbols_name {
            Some(symbols) => is_windows_name(self.name@) && symbols@ == "wgsl_analyzer.pdb"@,
            None => !is_windows_name(self.name@),
        }
    }

    /// The target that `target` names.
    pub fn get(target: &str) -> (result: Target)
        ensures
            result.names(target@),
    {
        let chars = chars_of(target);
        let (name, libc_suffix) = match split_once(&chars, '.') {
            Some((name, libc_suffix)) => (name, Some(string_of(&libc_suffix))),
            None => (chars, None),
        };
        let windows = contains(&name, &chars_of("-windows-"));
        let name = string_of(&name);
        let suffix = if windows {
            ".exe"
        } else {
            ""
        };
        let mut server_name = String::from_str("wgsl-analyzer");
        server_name.append(suffix);
        let mut artifact_name = String::from_str("wgsl-analyzer-");
        artifact_name.append(name.as_str());
        artifact_name.append(suffix);
        let symbols_name = if windows {
            Some(String::from_str("wgsl_analyzer.pdb"))
        } else {
            None
        };
        Target { name, libc_suffix, server_name, symbols_name, artifact_name }
    }

    pub open spec fn spec_is_linux(&self) -> bool {
        occurs_in("-linux-"@, self.name@)
    }

    /// Whether the target is one of Linux.
    #[verifier::when_used_as_spec(spec_is_linux)]
    pub fn is_linux(&self) -> (linux: bool)
        ensures
            linux == self.spec_is_linux(),
    {
        contains(&chars_of(self.name.as_str()), &chars_of("-linux-"))
    }
}

/// How the server is packed.
#[derive(Debug, Clone, Copy, PartialEq, Eq, Structural)]
pub enum Archive {
    Zip,
    Gzip,
}

/// How the server is built and packed.
#[derive(Debug, PartialEq, Eq)]
pub struct ServerBuild {
    /// The subcommand of cargo that builds the server.
    pub command: String,
    /// The target that is handed to it.
    pub target_name: String,
    pub archive: Archive,
}

/// The target that is handed to the build: with zig, the target triple
/// followed by the version of the C library, where one is named.
pub open spec fn build_target_name(target: Target, zig: bool) -> Seq<char> {
    match target.libc_suffix {
        Some(suffix) => if zig {
            target.name@ + "."@ + suffix@
        } else {
            target.name@
        },
        None => target.name@,
    }
}

/// How the server is built for a target and packed: with `zigbuild` where
/// zig is asked for and the target is one of Linux, with `build` otherwise;
/// as a zip archive for Windows, with gzip otherwise.
pub fn server_build(target: &Target, zig: bool) -> (build: ServerBuild)
    ensures
        build.target_name@ == build_target_name(*target, zig),
        build.command@ == if target.spec_is_linux() && zig {
            "zigbuild"@
        } else {
            "build"@
        },
        build.archive == if is_windows_name(build_target_name(*target, zig)) {
            Archive::Zip
        } else {
            Archive::Gzip
        },
{
    let linux_target = target.is_linux();
    let mut target_name = target.name.clone();
    match &target.libc_suffix {
        Some(libc_suffix) => {
            if zig {
                target_name.append(".");
                target_name.append(libc_suffix.as_str());
            }
        },
        None => {},
    }
    let command = if linux_target && zig {
        "zigbuild"
    } else {
        "build"
    };
    let archive = if contains(&chars_of(target_name.as_str()), &chars_of("-windows-")) {
        Archive::Zip
    } else {
        Archive::Gzip
    };
    ServerBuild { command: String::from_str(command), target_name, archive }
}

/// The contents of a file, as they were read and as they are to be written.
#[derive(Debug, PartialEq, Eq)]
pub struct Patch {
    pub original_contents: String,
    pub contents: String,
}

impl Patch {
    pub fn new(contents: String) -> (patch: Patch)
        ensures
            patch.contents@ == contents@,
            patch.original_contents@ == contents@,
    {
        Patch { original_contents: contents.clone(), contents }
    }

    pub open spec fn spec_contains(&self, from: &str) -> bool {
        occurs_in(from@, self.contents@)
    }

    /// Whether `from` stands somewhere in the contents.
    #[verifier::when_used_as_spec(spec_contains)]
    pub fn contains(&self, from: &str) -> (found: bool)
        ensures
            found == self.spec_contains(from),
    {
        contains(&chars_of(self.contents.as_str()), &chars_of(from))
    }

    /// Replaces every occurrence of `from` in the contents by `to`. There
    /// has to be one.
    pub fn replace(&mut self, from: &str, to: &str)
        requires
            occurs_in(from@, old(self).contents@),
        ensures
            final(self).contents@ == replaced(old(self).contents@, from@, to@),
            final(self).original_contents == old(self).original_contents,
    {
        self.contents = string_of(
            &replace(&chars_of(self.contents.as_str()), &chars_of(from), &chars_of(to)),
        );
    }

    /// Replaces every occurrence of `from` in the contents by `to`, where
    /// there is one. Returns whether there was.
    pub fn replace_if_present(&mut self, from: &str, to: &str) -> (present: bool)
        ensures
            present == occurs_in(from@, old(self).contents@),
            final(self).original_contents == old(self).original_contents,
            final(self).contents@ == if present {
                replaced(old(self).contents@, from@, to@)
            } else {
                old(self).contents@
            },
    {
        if self.contains(from) {
            self.replace(from, to);
            true
        } else {
            false
        }
    }
}

/// `text` with `from` replaced by `to`, where `text` is there and holds
/// `from`.
pub open spec fn patched(text: Option<Seq<char>>, from: Seq<char>, to: Seq<char>) -> Option<
    Seq<char>,
> {
    match text {
        Some(text) => if occurs_in(from, text) {
            Some(replaced(text, from, to))
        } else {
            None
        },
        None => None,
    }
}

/// The manifest of the extension as it is released: with the version and the
/// tag of the release, and without the markers of generated parts and the
/// list of proposed interfaces. `None` where the manifest does not hold one
/// of the texts that are replaced.
pub open spec fn released_manifest(
    manifest: Seq<char>,
    version: Seq<char>,
    release_tag: Seq<char>,
) -> Option<Seq<char>> {
    let manifest = patched(
        Some(manifest),
        "\"version\": \""@ + VERSION_DEV@ + ".0-dev\""@,
        "\"version\": \""@ + version + "\""@,
    );
    let manifest = patched(
        manifest,
        "\"releaseTag\": null"@,
        "\"releaseTag\": \""@ + release_tag + "\""@,
    );
    let manifest = patched(manifest, "\"title\": \"$generated-start\""@, ""@);
    let manifest = patched(manifest, "\"title\": \"$generated-end\""@, ""@);
    patched(manifest, "\"enabledApiProposals\": [],"@, ""@)
}

/// Changes the manifest of the extension into the one that is released.
/// Returns `None` where the manifest does not hold one of the texts that
/// are replaced.
pub fn release_manifest(manifest: &str, version: &str, release_tag: &str) -> (released: Option<
    String,
>)
    ensures
        match released {
            Some(released) => released_manifest(manifest@, version@, release_tag@) == Some(
                released@,
            ),
            None => released_manifest(manifest@, version@, release_tag@) is None,
        },
{
    let mut patch = Patch::new(String::from_str(manifest));
    let mut dev_version = String::from_str("\"version\": \"");
    dev_version.append(VERSION_DEV);
    dev_version.append(".0-dev\"");
    let mut new_version = String::from_str("\"version\": \"");
    new_version.append(version);
    new_version.append("\"");
    let mut new_tag = String::from_str("\"releaseTag\": \"");
    new_tag.append(release_tag);
    new_tag.append("\"");
    if !patch.replace_if_present(dev_version.as_str(), new_version.as_str()) {
        return None;
    }
    if !patch.replace_if_present("\"releaseTag\": null", new_tag.as_str()) {
        return None;
    }
    if !patch.replace_if_present("\"title\": \"$generated-start\"", "") {
        return None;
    }
    if !patch.replace_if_present("\"title\": \"$generated-end\"", "") {
        return None;
    }
    if !patch.replace_if_present("\"enabledApiProposals\": [],", "") {
        return None;
    }
    Some(patch.contents)
}

} // verus!
