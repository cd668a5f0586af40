//! Linker directives, the build's configuration, and the names under which
//! the NVIDIA libraries are linked.

use vstd::prelude::*;
use vstd::string::*;

verus! {

/// How the native libraries are linked.
#[derive(Clone, Copy, Debug, PartialEq, Eq, Structural)]
pub enum LinkConfiguration {
    /// From static archives.
    Static,
    /// From shared libraries.
    Dynamic,
}

/// The major version of the inference runtime that the shim is built for.
#[derive(Clone, Copy, Debug, PartialEq, Eq, Structural)]
pub enum TRTVersion {
    V5,
    V6,
    V7,
}

/// Why no single runtime version could be chosen.
#[derive(Clone, Copy, Debug, PartialEq, Eq, Structural)]
pub enum VersionError {
    /// No version toggle is on.
    NoneSelected,
    /// More than one version toggle is on.
    Conflicting,
}

/// How one library is linked.
#[derive(Clone, Copy, Debug, PartialEq, Eq, Structural)]
pub enum LinkKind {
    /// A static archive, bundled into the artifact.
    Static,
    /// A static archive, found on the system's search paths when the final
    /// artifact is linked.
    StaticNoBundle,
    /// A shared library.
    Dylib,
}

/// One linker directive.
#[derive(Clone, Debug, PartialEq, Eq)]
pub enum Directive {
    /// Add `path` to the directories searched for libraries.
    Search { path: String },
    /// Link the library `name`.
    Link { name: String, kind: LinkKind },
}

/// A directive as a mathematical value.
pub enum DirectiveModel {
    Search { path: Seq<char> },
    Link { name: Seq<char>, kind: LinkKind },
}

impl View for Directive {
    type V = DirectiveModel;

    open spec fn view(&self) -> DirectiveModel {
        match self {
            Directive::Search { path } => DirectiveModel::Search { path: path@ },
            Directive::Link { name, kind } => DirectiveModel::Link { name: name@, kind: *kind },
        }
    }
}

/// A plan as the sequence of its directives' values.
pub open spec fn plan_model(plan: Seq<Directive>) -> Seq<DirectiveModel> {
    plan.map_values(|d: Directive| d@)
}

/// The directories that the build environment names.
#[derive(Clone, Debug, PartialEq, Eq)]
pub struct LinkEnv {
    /// Root of the CUDA installation, where one is named.
    pub cuda_install_dir: Option<String>,
    /// Directory of the runtime's libraries, where one is named.
    pub trt_install_dir: Option<String>,
    /// Directory of the rebuilt protobuf archive, where one is named.
    pub protobuf_dir: Option<String>,
}

/// The build environment as a mathematical value.
pub struct LinkEnvModel {
    pub cuda_install_dir: Option<Seq<char>>,
    pub trt_install_dir: Option<Seq<char>>,
    pub protobuf_dir: Option<Seq<char>>,
}

/// The text of an optional string.
pub open spec fn text_of(s: Option<String>) -> Option<Seq<char>> {
    match s {
        Some(t) => Some(t@),
        None => None,
    }
}

/// The text of an optional string slice.
pub open spec fn text_of_str(s: Option<&str>) -> Option<Seq<char>> {
    match s {
        Some(t) => Some(t@),
        None => None,
    }
}

impl View for LinkEnv {
    type V = LinkEnvModel;

    open spec fn view(&self) -> LinkEnvModel {
        LinkEnvModel {
            cuda_install_dir: text_of(self.cuda_install_dir),
            trt_install_dir: text_of(self.trt_install_dir),
            protobuf_dir: text_of(self.protobuf_dir),
        }
    }
}

impl TRTVersion {
    /// The version that the three toggles select: the one that is on, where
    /// exactly one is.
    pub open spec fn spec_from_features(trt5: bool, trt6: bool, trt7: bool) -> Result<
        TRTVersion,
        VersionError,
    > {
        if trt5 && !trt6 && !trt7 {
            Ok(TRTVersion::V5)
        } else if !trt5 && trt6 && !trt7 {
            Ok(TRTVersion::V6)
        } else if !trt5 && !trt6 && trt7 {
            Ok(TRTVersion::V7)
        } else if !trt5 && !trt6 && !trt7 {
            Err(VersionError::NoneSelected)
        } else {
            Err(VersionError::Conflicting)
        }
    }

    /// Chooses the version from the three build toggles.
    pub fn from_features(trt5: bool, trt6: bool, trt7: bool) -> (version: Result<
        TRTVersion,
        VersionError,
    >)
        ensures
            version == Self::spec_from_features(trt5, trt6, trt7),
    {
        match (trt5, trt6, trt7) {
            (true, false, false) => Ok(TRTVersion::V5),
            (false, true, false) => Ok(TRTVersion::V6),
            (false, false, true) => Ok(TRTVersion::V7),
            (false, false, false) => Err(VersionError::NoneSelected),
            _ => Err(VersionError::Conflicting),
        }
    }

    /// The preprocessor flag of this version.
    pub open spec fn spec_flag(self) -> Seq<char> {
        match self {
            TRTVersion::V5 => "TRT5"@,
            TRTVersion::V6 => "TRT6"@,
            TRTVersion::V7 => "TRT7"@,
        }
    }

    /// The preprocessor flag that the shim and the declaration generator are
    /// given for this version.
    pub fn get_flag(&self) -> (flag: &'static str)
        ensures
            flag@ == self.spec_flag(),
    {
        match self {
            TRTVersion::V5 => "TRT5",
            TRTVersion::V6 => "TRT6",
            TRTVersion::V7 => "TRT7",
        }
    }

    /// The compiler argument that defines this version's flag.
    pub fn get_define_arg(&self) -> (arg: String)
        ensures
            arg@ == "-D"@ + self.spec_flag(),
    {
        String::from_str("-D").concat(self.get_flag())
    }
}

impl LinkConfiguration {
    /// The configuration that the `static` toggle selects.
    pub fn from_feature(static_linking: bool) -> (conf: LinkConfiguration)
        ensures
            conf == LinkConfiguration::Static <==> static_linking,
    {
        if static_linking {
            LinkConfiguration::Static
        } else {
            LinkConfiguration::Dynamic
        }
    }

    /// The kind by which the NVIDIA libraries are linked.
    pub open spec fn spec_kind(self) -> LinkKind {
        match self {
            LinkConfiguration::Static => LinkKind::Static,
            LinkConfiguration::Dynamic => LinkKind::Dylib,
        }
    }

    /// The kind by which the NVIDIA libraries are linked.
    pub fn kind(self) -> (kind: LinkKind)
        ensures
            kind == self.spec_kind(),
    {
        match self {
            LinkConfiguration::Static => LinkKind::Static,
            LinkConfiguration::Dynamic => LinkKind::Dylib,
        }
    }

    /// The kind by which the C++ standard library is linked.
    pub open spec fn spec_stdcpp_kind(self) -> LinkKind {
        match self {
            LinkConfiguration::Static => LinkKind::StaticNoBundle,
            LinkConfiguration::Dynamic => LinkKind::Dylib,
        }
    }

    /// The kind by which the C++ standard library is linked.
    pub fn stdcpp_kind(self) -> (kind: LinkKind)
        ensures
            kind == self.spec_stdcpp_kind(),
    {
        match self {
            LinkConfiguration::Static => LinkKind::StaticNoBundle,
            LinkConfiguration::Dynamic => LinkKind::Dylib,
        }
    }
}

impl LinkKind {
    /// The word by which cargo knows this kind.
    pub open spec fn spec_cargo_name(self) -> Seq<char> {
        match self {
            LinkKind::Static => "static"@,
            LinkKind::StaticNoBundle => "static-nobundle"@,
            LinkKind::Dylib => "dylib"@,
        }
    }

    /// The word by which cargo knows this kind.
    pub fn cargo_name(self) -> (name: &'static str)
        ensures
            name@ == self.spec_cargo_name(),
    {
        match self {
            LinkKind::Static => "static",
            LinkKind::StaticNoBundle => "static-nobundle",
            LinkKind::Dylib => "dylib",
        }
    }
}

/// The name under which the NVIDIA library `lib` is linked, with the kind in
/// front of it. A static archive is called after the library with `_static`
/// behind it, except `culibos`, which has no other form.
pub open spec fn spec_nvlib_name(lib: Seq<char>, conf: LinkConfiguration) -> Seq<char> {
    match conf {
        LinkConfiguration::Static => if lib == "culibos"@ {
            "static=culibos"@
        } else {
            "static="@ + lib + "_static"@
        },
        LinkConfiguration::Dynamic => "dylib="@ + lib,
    }
}

/// Whether `lib` is the library that exists as a static archive only.
fn is_culibos(lib: &str) -> (yes: bool)
    ensures
        yes <==> lib@ == "culibos"@,
{
    String::from_str(lib) == String::from_str("culibos")
}

/// The name under which the NVIDIA library `lib` is linked, with the kind in
/// front of it.
pub fn get_nvlib_name(lib: &str, conf: LinkConfiguration) -> (name: String)
    ensures
        name@ == spec_nvlib_name(lib@, conf),
{
    match conf {
        LinkConfiguration::Static => {
            if is_culibos(lib) {
                String::from_str("static=culibos")
            } else {
                String::from_str("static=").concat(lib).concat("_static")
            }
        },
        LinkConfiguration::Dynamic => String::from_str("dylib=").concat(lib),
    }
}

/// The file name, without kind, under which the NVIDIA library `lib` is
/// linked.
pub open spec fn spec_nvlib_archive(lib: Seq<char>, conf: LinkConfiguration) -> Seq<char> {
    match conf {
        LinkConfiguration::Static => if lib == "culibos"@ {
            lib
        } else {
            lib + "_static"@
        },
        LinkConfiguration::Dynamic => lib,
    }
}

/// The directive that links the NVIDIA library `lib`.
pub open spec fn spec_nvlib_link(lib: Seq<char>, conf: LinkConfiguration) -> DirectiveModel {
    DirectiveModel::Link { name: spec_nvlib_archive(lib, conf), kind: conf.spec_kind() }
}

/// The directive that links the NVIDIA library `lib`.
pub fn nvlib_link(lib: &str, conf: LinkConfiguration) -> (directive: Directive)
    ensures
        directive@ == spec_nvlib_link(lib@, conf),
{
    let name = match conf {
        LinkConfiguration::Static => {
            if is_culibos(lib) {
                String::from_str(lib)
            } else {
                String::from_str(lib).concat("_static")
            }
        },
        LinkConfiguration::Dynamic => String::from_str(lib),
    };
    Directive::Link { name, kind: conf.kind() }
}

impl Directive {
    /// A directive that adds `path` to the search directories.
    pub fn search(path: &str) -> (directive: Directive)
        ensures
            directive@ == (DirectiveModel::Search { path: path@ }),
    {
        Directive::Search { path: String::from_str(path) }
    }

    /// A directive that links `name` by `kind`.
    pub fn link(name: &str, kind: LinkKind) -> (directive: Directive)
        ensures
            directive@ == (DirectiveModel::Link { name: name@, kind }),
    {
        Directive::Link { name: String::from_str(name), kind }
    }

    /// The line by which cargo is told of a directive.
    pub open spec fn spec_cargo_line(directive: DirectiveModel) -> Seq<char> {
        match directive {
            DirectiveModel::Search { path } => "cargo:rustc-link-search="@ + path,
            DirectiveModel::Link { name, kind } => "cargo:rustc-link-lib="@
                + kind.spec_cargo_name() + "="@ + name,
        }
    }

    /// The line by which cargo is told of this directive.
    pub fn cargo_line(&self) -> (line: String)
        ensures
            line@ == Self::spec_cargo_line(self@),
    {
        match self {
            Directive::Search { path } => String::from_str("cargo:rustc-link-search=").concat(
                path.as_str(),
            ),
            Directive::Link { name, kind } => String::from_str("cargo:rustc-link-lib=").concat(
                kind.cargo_name(),
            ).concat("=").concat(name.as_str()),
        }
    }
}

/// The name of an NVIDIA library, case by case: a static archive is linked
/// as `static=` and the library's name with `_static` behind it, except
/// `culibos`, which is linked as `static=culibos`; a shared library as
/// `dylib=` and the library's name.
pub proof fn lemma_nvlib_name_cases(lib: Seq<char>)
    ensures
        lib != "culibos"@ ==> spec_nvlib_name(lib, LinkConfiguration::Static) == "static="@ + lib
            + "_static"@,
        spec_nvlib_name("culibos"@, LinkConfiguration::Static) == "static=culibos"@,
        spec_nvlib_name(lib, LinkConfiguration::Dynamic) == "dylib="@ + lib,
{
}

/// The name of an NVIDIA library is what cargo is told of the directive that
/// links it: the kind's word, `=`, and the archive's name.
pub proof fn lemma_nvlib_name_is_link_text(lib: Seq<char>, conf: LinkConfiguration)
    ensures
        spec_nvlib_name(lib, conf) == conf.spec_kind().spec_cargo_name() + "="@
            + spec_nvlib_archive(lib, conf),
        Directive::spec_cargo_line(spec_nvlib_link(lib, conf)) == "cargo:rustc-link-lib="@
            + spec_nvlib_name(lib, conf),
{
    reveal_strlit("static=culibos");
    reveal_strlit("culibos");
    reveal_strlit("static=");
    reveal_strlit("static");
    reveal_strlit("dylib=");
    reveal_strlit("dylib");
    reveal_strlit("=");
}

} // verus!
