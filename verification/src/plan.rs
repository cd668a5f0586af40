//! The ordered linker directives that couple a build to the native inference
//! runtime, to the CUDA libraries below it and to the shim in front of it.
//!
//! The order of a plan matters: on Unix a static archive is resolved in one
//! pass, so a library stands before the libraries it depends on.

use crate::link::{
    nvlib_link, plan_model, spec_nvlib_link, text_of, text_of_str, Directive, DirectiveModel,
    LinkConfiguration, LinkEnv, LinkEnvModel, LinkKind,
};
use vstd::prelude::*;
use vstd::string::*;

verus! {

/// The libraries of the inference runtime, in the order in which they are
/// linked.
pub open spec fn tensorrt_libs() -> Seq<Seq<char>> {
    seq!["nvinfer"@, "nvonnxparser"@, "nvparsers"@, "nvinfer_plugin"@]
}

/// The CUDA libraries, in the order in which they are linked.
pub open spec fn cuda_libs() -> Seq<Seq<char>> {
    seq!["cudart"@, "cublas"@, "cublasLt"@, "cudnn"@, "culibos"@]
}

/// The archives of the graph compiler, in the order in which they are linked.
pub open spec fn myelin_libs() -> Seq<Seq<char>> {
    seq![
        "myelin_compiler_static"@,
        "myelin_pattern_library_static"@,
        "myelin_pattern_runtime_static"@,
        "myelin_executor_static"@,
    ]
}

/// The directives that link the NVIDIA libraries `libs`, one for each and in
/// their order.
pub open spec fn spec_nvlib_links(libs: Seq<Seq<char>>, conf: LinkConfiguration) -> Seq<
    DirectiveModel,
> {
    libs.map_values(|lib: Seq<char>| spec_nvlib_link(lib, conf))
}

/// The directives that link `libs` as bundled static archives, one for each
/// and in their order.
pub open spec fn spec_static_links(libs: Seq<Seq<char>>) -> Seq<DirectiveModel> {
    libs.map_values(|lib: Seq<char>| DirectiveModel::Link { name: lib, kind: LinkKind::Static })
}

/// A search directive for `path` where one is named, nothing where none is.
pub open spec fn spec_optional_search(path: Option<Seq<char>>) -> Seq<DirectiveModel> {
    match path {
        Some(p) => seq![DirectiveModel::Search { path: p }],
        None => Seq::empty(),
    }
}

/// The directives for the inference runtime: its directory where one is
/// named; in a static build the two shared libraries that its archives need
/// and the rebuilt protobuf archive, after that archive's directory where one
/// is named; then the runtime's own libraries.
pub open spec fn spec_tensorrt_configuration(
    conf: LinkConfiguration,
    trt_install_dir: Option<Seq<char>>,
    protobuf_dir: Option<Seq<char>>,
) -> Seq<DirectiveModel> {
    let proto = match conf {
        LinkConfiguration::Static => seq![
            DirectiveModel::Link { name: "onnx_proto"@, kind: LinkKind::Dylib },
            DirectiveModel::Link { name: "nvrtc"@, kind: LinkKind::Dylib },
        ] + spec_optional_search(protobuf_dir) + seq![
            DirectiveModel::Link { name: "protobuf_private"@, kind: LinkKind::Static },
        ],
        LinkConfiguration::Dynamic => Seq::empty(),
    };
    spec_optional_search(trt_install_dir) + proto + spec_nvlib_links(tensorrt_libs(), conf)
}

/// The CUDA root that is used where the environment names none.
pub open spec fn default_cuda_dir() -> Seq<char> {
    "/usr/local/cuda"@
}

/// The directory of the CUDA libraries: `lib64` below the root that the
/// environment names, or below the usual root where it names none.
pub open spec fn spec_cuda_lib_dir(cuda_install_dir: Option<Seq<char>>) -> Seq<char> {
    let root = match cuda_install_dir {
        Some(dir) => dir,
        None => default_cuda_dir(),
    };
    root + "/lib64"@
}

/// The directives for CUDA: the directory of its libraries; in a static
/// build the two cuDNN training archives; then the CUDA libraries.
pub open spec fn spec_cuda_configuration(
    conf: LinkConfiguration,
    cuda_install_dir: Option<Seq<char>>,
) -> Seq<DirectiveModel> {
    let train = match conf {
        LinkConfiguration::Static => seq![
            DirectiveModel::Link { name: "cudnn_adv_train_static_v8"@, kind: LinkKind::Static },
            DirectiveModel::Link { name: "cudnn_ops_train_static_v8"@, kind: LinkKind::Static },
        ],
        LinkConfiguration::Dynamic => Seq::empty(),
    };
    seq![DirectiveModel::Search { path: spec_cuda_lib_dir(cuda_install_dir) }] + train
        + spec_nvlib_links(cuda_libs(), conf)
}

/// The directives for the graph compiler: its four archives in a static
/// build, nothing in a dynamic one.
pub open spec fn spec_myelin_configuration(conf: LinkConfiguration) -> Seq<DirectiveModel> {
    match conf {
        LinkConfiguration::Static => spec_static_links(myelin_libs()),
        LinkConfiguration::Dynamic => Seq::empty(),
    }
}

/// The directives for the shim and the C++ standard library that it needs.
pub open spec fn spec_shim_configuration(conf: LinkConfiguration, shim_dir: Seq<char>) -> Seq<
    DirectiveModel,
> {
    seq![
        DirectiveModel::Search { path: shim_dir },
        DirectiveModel::Link { name: "trt-sys"@, kind: LinkKind::Static },
        DirectiveModel::Link { name: "stdc++"@, kind: conf.spec_stdcpp_kind() },
    ]
}

/// The whole plan: shim, inference runtime, CUDA, graph compiler.
pub open spec fn spec_link_plan(
    conf: LinkConfiguration,
    shim_dir: Seq<char>,
    env: LinkEnvModel,
) -> Seq<DirectiveModel> {
    spec_shim_configuration(conf, shim_dir) + spec_tensorrt_configuration(
        conf,
        env.trt_install_dir,
        env.protobuf_dir,
    ) + spec_cuda_configuration(conf, env.cuda_install_dir) + spec_myelin_configuration(conf)
}

/// The texts of a list of names.
pub open spec fn texts_of(names: Seq<&str>) -> Seq<Seq<char>> {
    names.map_values(|name: &str| name@)
}

/// Puts `directive` at the end of `plan`.
fn emit(plan: &mut Vec<Directive>, directive: Directive)
    ensures
        plan_model(final(plan)@) == plan_model(old(plan)@).push(directive@),
{
    plan.push(directive);
}

/// Puts the directives of `more` at the end of `plan`, in their order.
fn emit_all(plan: &mut Vec<Directive>, more: Vec<Directive>)
    ensures
        plan_model(final(plan)@) == plan_model(old(plan)@) + plan_model(more@),
{
    let mut more = more;
    plan.append(&mut more);
}

/// Puts a search directive for `path` at the end of `plan` where a path is
/// given.
fn emit_optional_search(plan: &mut Vec<Directive>, path: Option<&str>)
    ensures
        plan_model(final(plan)@) == plan_model(old(plan)@) + spec_optional_search(
            text_of_str(path),
        ),
{
    match path {
        Some(p) => emit(plan, Directive::search(p)),
        None => {},
    }
}

/// Puts at the end of `plan` the directives that link the NVIDIA libraries
/// `libs`.
fn emit_nvlibs(plan: &mut Vec<Directive>, libs: &[&str], conf: LinkConfiguration)
    ensures
        plan_model(final(plan)@) == plan_model(old(plan)@) + spec_nvlib_links(
            texts_of(libs@),
            conf,
        ),
{
    let mut i: usize = 0;
    while i < libs.len()
        invariant
            i <= libs.len(),
            plan_model(plan@) == plan_model(old(plan)@) + spec_nvlib_links(
                texts_of(libs@).take(i as int),
                conf,
            ),
        decreases libs.len() - i,
    {
        emit(plan, nvlib_link(libs[i], conf));
        i += 1;
    }
}

/// Puts at the end of `plan` the directives that link `libs` as bundled
/// static archives.
fn emit_static_links(plan: &mut Vec<Directive>, libs: &[&str])
    ensures
        plan_model(final(plan)@) == plan_model(old(plan)@) + spec_static_links(texts_of(libs@)),
{
    let mut i: usize = 0;
    while i < libs.len()
        invariant
            i <= libs.len(),
            plan_model(plan@) == plan_model(old(plan)@) + spec_static_links(
                texts_of(libs@).take(i as int),
            ),
        decreases libs.len() - i,
    {
        emit(plan, Directive::link(libs[i], LinkKind::Static));
        i += 1;
    }
}

/// The directives for the inference runtime.
pub fn tensorrt_configuration(
    conf: LinkConfiguration,
    trt_install_dir: Option<&str>,
    protobuf_dir: Option<&str>,
) -> (plan: Vec<Directive>)
    ensures
        plan_model(plan@) == spec_tensorrt_configuration(
            conf,
            text_of_str(trt_install_dir),
            text_of_str(protobuf_dir),
        ),
{
    let mut plan: Vec<Directive> = Vec::new();
    emit_optional_search(&mut plan, trt_install_dir);

    // The archives of the runtime are built against a protobuf whose root
    // namespace is `google_private`, so a protobuf rebuilt under that name is
    // linked, and found in its own directory.
    match conf {
        LinkConfiguration::Static => {
            emit(&mut plan, Directive::link("onnx_proto", LinkKind::Dylib));
            emit(&mut plan, Directive::link("nvrtc", LinkKind::Dylib));
            emit_optional_search(&mut plan, protobuf_dir);
            emit(&mut plan, Directive::link("protobuf_private", LinkKind::Static));
        },
        LinkConfiguration::Dynamic => {},
    }
    let libs: [&str; 4] = ["nvinfer", "nvonnxparser", "nvparsers", "nvinfer_plugin"];
    emit_nvlibs(&mut plan, libs.as_slice(), conf);
    plan
}

/// The directives for CUDA.
pub fn cuda_configuration(conf: LinkConfiguration, cuda_install_dir: Option<&str>) -> (plan: Vec<
    Directive,
>)
    ensures
        plan_model(plan@) == spec_cuda_configuration(conf, text_of_str(cuda_install_dir)),
{
    let cudadir = match cuda_install_dir {
        Some(dir) => dir,
        None => "/usr/local/cuda",
    };
    let mut plan: Vec<Directive> = Vec::new();
    let lib_dir = String::from_str(cudadir).concat("/lib64");
    emit(&mut plan, Directive::search(lib_dir.as_str()));
    match conf {
        LinkConfiguration::Static => {
            emit(&mut plan, Directive::link("cudnn_adv_train_static_v8", LinkKind::Static));
            emit(&mut plan, Directive::link("cudnn_ops_train_static_v8", LinkKind::Static));
        },
        LinkConfiguration::Dynamic => {},
    }
    let libs: [&str; 5] = ["cudart", "cublas", "cublasLt", "cudnn", "culibos"];
    emit_nvlibs(&mut plan, libs.as_slice(), conf);
    plan
}

/// The directives for the graph compiler. A dynamic build needs none: the
/// runtime's shared libraries bring it.
pub fn myelin_configuration(conf: LinkConfiguration) -> (plan: Vec<Directive>)
    ensures
        plan_model(plan@) == spec_myelin_configuration(conf),
{
    let mut plan: Vec<Directive> = Vec::new();
    match conf {
        LinkConfiguration::Static => {
            let libs: [&str; 4] = [
                "myelin_compiler_static",
                "myelin_pattern_library_static",
                "myelin_pattern_runtime_static",
                "myelin_executor_static",
            ];
            emit_static_links(&mut plan, libs.as_slice());
        },
        LinkConfiguration::Dynamic => {},
    }
    plan
}

/// The directives for the shim, built in `shim_dir`, and the C++ standard
/// library.
pub fn shim_configuration(conf: LinkConfiguration, shim_dir: &str) -> (plan: Vec<Directive>)
    ensures
        plan_model(plan@) == spec_shim_configuration(conf, shim_dir@),
{
    let mut plan: Vec<Directive> = Vec::new();
    emit(&mut plan, Directive::search(shim_dir));
    emit(&mut plan, Directive::link("trt-sys", LinkKind::Static));
    emit(&mut plan, Directive::link("stdc++", conf.stdcpp_kind()));
    plan
}

/// The text of an optional string, borrowed.
fn borrowed(s: &Option<String>) -> (t: Option<&str>)
    ensures
        text_of_str(t) == text_of(*s),
{
    match s {
        Some(text) => Some(text.as_str()),
        None => None,
    }
}

/// The whole plan for a build whose shim was built in `shim_dir`.
pub fn link_plan(conf: LinkConfiguration, shim_dir: &str, env: &LinkEnv) -> (plan: Vec<Directive>)
    ensures
        plan_model(plan@) == spec_link_plan(conf, shim_dir@, env@),
{
    let mut plan = shim_configuration(conf, shim_dir);
    emit_all(
        &mut plan,
        tensorrt_configuration(conf, borrowed(&env.trt_install_dir), borrowed(&env.protobuf_dir)),
    );
    emit_all(&mut plan, cuda_configuration(conf, borrowed(&env.cuda_install_dir)));
    emit_all(&mut plan, myelin_configuration(conf));
    plan
}

/// The lines by which cargo is told of a plan, one for each directive and in
/// the plan's order.
pub fn cargo_lines(plan: &Vec<Directive>) -> (lines: Vec<String>)
    ensures
        lines@.len() == plan@.len(),
        forall|i: int|
            0 <= i < plan@.len() ==> (#[trigger] lines@[i])@ == Directive::spec_cargo_line(
                plan@[i]@,
            ),
{
    let mut lines: Vec<String> = Vec::new();
    let mut i: usize = 0;
    while i < plan.len()
        invariant
            i <= plan.len(),
            lines@.len() == i,
            forall|j: int|
                0 <= j < i ==> (#[trigger] lines@[j])@ == Directive::spec_cargo_line(plan@[j]@),
        decreases plan.len() - i,
    {
        lines.push(plan[i].cargo_line());
        i += 1;
    }
    lines
}

/// Two builds with the same configuration, the same shim directory and
/// environments that name the same directories have the same plan.
pub proof fn lemma_link_plan_deterministic(
    conf: LinkConfiguration,
    shim_dir_a: &str,
    shim_dir_b: &str,
    env_a: LinkEnv,
    env_b: LinkEnv,
)
    requires
        shim_dir_a@ == shim_dir_b@,
        text_of(env_a.cuda_install_dir) == text_of(env_b.cuda_install_dir),
        text_of(env_a.trt_install_dir) == text_of(env_b.trt_install_dir),
        text_of(env_a.protobuf_dir) == text_of(env_b.protobuf_dir),
    ensures
        spec_link_plan(conf, shim_dir_a@, env_a@) == spec_link_plan(conf, shim_dir_b@, env_b@),
{
}

/// What stands in one of two sequences stands in the two put together.
proof fn lemma_contains_in_concat<A>(a: Seq<A>, b: Seq<A>, x: A)
    requires
        a.contains(x) || b.contains(x),
    ensures
        (a + b).contains(x),
{
    if a.contains(x) {
        let i = choose|i: int| 0 <= i < a.len() && a[i] == x;
        assert((a + b)[i] == x);
    } else {
        let i = choose|i: int| 0 <= i < b.len() && b[i] == x;
        assert((a + b)[a.len() + i] == x);
    }
}

/// What stands in one of the four parts of a plan stands in the plan.
proof fn lemma_part_in_plan(
    conf: LinkConfiguration,
    shim_dir: Seq<char>,
    env: LinkEnvModel,
    x: DirectiveModel,
)
    requires
        spec_shim_configuration(conf, shim_dir).contains(x) || spec_tensorrt_configuration(
            conf,
            env.trt_install_dir,
            env.protobuf_dir,
        ).contains(x) || spec_cuda_configuration(conf, env.cuda_install_dir).contains(x)
            || spec_myelin_configuration(conf).contains(x),
    ensures
        spec_link_plan(conf, shim_dir, env).contains(x),
{
    let shim = spec_shim_configuration(conf, shim_dir);
    let trt = spec_tensorrt_configuration(conf, env.trt_install_dir, env.protobuf_dir);
    let cuda = spec_cuda_configuration(conf, env.cuda_install_dir);
    let myelin = spec_myelin_configuration(conf);
    if shim.contains(x) || trt.contains(x) {
        lemma_contains_in_concat(shim, trt, x);
    }
    if (shim + trt).contains(x) || cuda.contains(x) {
        lemma_contains_in_concat(shim + trt, cuda, x);
    }
    lemma_contains_in_concat(shim + trt + cuda, myelin, x);
}

/// Every plan links each library of the inference runtime and each CUDA
/// library, by the kind and under the archive name of its configuration.
pub proof fn lemma_plan_links_every_library(
    conf: LinkConfiguration,
    shim_dir: Seq<char>,
    env: LinkEnvModel,
    lib: Seq<char>,
)
    requires
        tensorrt_libs().contains(lib) || cuda_libs().contains(lib),
    ensures
        spec_link_plan(conf, shim_dir, env).contains(spec_nvlib_link(lib, conf)),
{
    let link = spec_nvlib_link(lib, conf);
    let trt = spec_tensorrt_configuration(conf, env.trt_install_dir, env.protobuf_dir);
    let cuda = spec_cuda_configuration(conf, env.cuda_install_dir);
    if tensorrt_libs().contains(lib) {
        let i = choose|i: int| 0 <= i < tensorrt_libs().len() && tensorrt_libs()[i] == lib;
        let links = spec_nvlib_links(tensorrt_libs(), conf);
        assert(links[i] == link);
        let front = trt.subrange(0, trt.len() - links.len());
        assert(trt =~= front + links);
        lemma_contains_in_concat(front, links, link);
    } else {
        let i = choose|i: int| 0 <= i < cuda_libs().len() && cuda_libs()[i] == lib;
        let links = spec_nvlib_links(cuda_libs(), conf);
        assert(links[i] == link);
        let front = cuda.subrange(0, cuda.len() - links.len());
        assert(cuda =~= front + links);
        lemma_contains_in_concat(front, links, link);
    }
    lemma_part_in_plan(conf, shim_dir, env, link);
}

/// A dynamic plan holds the shim, the search directories and the nine
/// NVIDIA libraries, and nothing else; past the shim it links shared
/// libraries only.
pub proof fn lemma_dynamic_plan(shim_dir: Seq<char>, env: LinkEnvModel)
    ensures
        spec_link_plan(LinkConfiguration::Dynamic, shim_dir, env) == spec_shim_configuration(
            LinkConfiguration::Dynamic,
            shim_dir,
        ) + spec_optional_search(env.trt_install_dir) + spec_nvlib_links(
            tensorrt_libs(),
            LinkConfiguration::Dynamic,
        ) + seq![DirectiveModel::Search { path: spec_cuda_lib_dir(env.cuda_install_dir) }]
            + spec_nvlib_links(cuda_libs(), LinkConfiguration::Dynamic),
        forall|i: int|
            #![trigger spec_link_plan(LinkConfiguration::Dynamic, shim_dir, env)[i]]
            2 <= i < spec_link_plan(LinkConfiguration::Dynamic, shim_dir, env).len() ==> {
                let directive = spec_link_plan(LinkConfiguration::Dynamic, shim_dir, env)[i];
                directive is Link ==> directive->kind == LinkKind::Dylib
            },
{
}

/// A static plan links, besides the libraries that every plan links, the
/// rebuilt protobuf archive, the two cuDNN training archives and the four
/// archives of the graph compiler, all as static archives.
pub proof fn lemma_static_plan_links_archives(
    shim_dir: Seq<char>,
    env: LinkEnvModel,
    name: Seq<char>,
)
    requires
        name == "protobuf_private"@ || name == "cudnn_adv_train_static_v8"@ || name
            == "cudnn_ops_train_static_v8"@ || myelin_libs().contains(name),
    ensures
        spec_link_plan(LinkConfiguration::Static, shim_dir, env).contains(
            DirectiveModel::Link { name, kind: LinkKind::Static },
        ),
{
    let conf = LinkConfiguration::Static;
    let link = DirectiveModel::Link { name, kind: LinkKind::Static };
    let trt = spec_tensorrt_configuration(conf, env.trt_install_dir, env.protobuf_dir);
    let cuda = spec_cuda_configuration(conf, env.cuda_install_dir);
    let myelin = spec_myelin_configuration(conf);
    if name == "protobuf_private"@ {
        let at = spec_optional_search(env.trt_install_dir).len() + 2 + spec_optional_search(
            env.protobuf_dir,
        ).len();
        assert(trt[at as int] == link);
    } else if name == "cudnn_adv_train_static_v8"@ {
        assert(cuda[1] == link);
    } else if name == "cudnn_ops_train_static_v8"@ {
        assert(cuda[2] == link);
    } else {
        let i = choose|i: int| 0 <= i < myelin_libs().len() && myelin_libs()[i] == name;
        assert(myelin[i] == link);
    }
    lemma_part_in_plan(conf, shim_dir, env, link);
}

} // verus!
