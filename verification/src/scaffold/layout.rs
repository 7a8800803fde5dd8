//! What setting up a project does to the disk, step by step.
//!
//! Each function gives the steps of one part of a project, in the order in which they are
//! taken. Paths are relative to the project's directory; a file's name is relative to the
//! directory of its step.
use crate::scaffold::casing::uppercase;
use crate::scaffold::{
    aproar, ntm, omnixelerator, omnixkore, omnixtracker, project, storage, test_suite, xtls, ARCMOON_SIGNATURE,
};
use vstd::prelude::*;
use vstd::string::StringExecFns;

verus! {

/// One step of setting up a project.
#[derive(Debug)]
pub enum SetupStep {
    /// Make the directory `path` and the directories above it.
    CreateDirectory { path: String },
    /// Write `text` to the file `file_name` below `directory`.
    WriteFile { directory: String, file_name: String, text: String },
}

/// A [`SetupStep`] as a mathematical value.
pub ghost enum SetupModel {
    CreateDirectory { path: Seq<char> },
    WriteFile { directory: Seq<char>, file_name: Seq<char>, text: Seq<char> },
}

impl View for SetupStep {
    type V = SetupModel;

    open spec fn view(&self) -> SetupModel {
        match self {
            SetupStep::CreateDirectory { path } => SetupModel::CreateDirectory { path: path@ },
            SetupStep::WriteFile { directory, file_name, text } => SetupModel::WriteFile {
                directory: directory@,
                file_name: file_name@,
                text: text@,
            },
        }
    }
}

/// A list of steps as a mathematical value.
pub open spec fn steps_model(steps: Seq<SetupStep>) -> Seq<SetupModel> {
    steps.map_values(|step: SetupStep| step@)
}

/// The directories that every project starts with.
pub open spec fn base_plan() -> Seq<SetupModel> {
    seq![
        SetupModel::CreateDirectory { path: "src/omnixtracker"@ },
        SetupModel::CreateDirectory { path: "src/constants"@ },
        SetupModel::CreateDirectory { path: "src/utils"@ },
        SetupModel::CreateDirectory { path: "tests"@ },
        SetupModel::CreateDirectory { path: "Xdocs"@ },
        SetupModel::CreateDirectory { path: "Xtls"@ },
        SetupModel::CreateDirectory { path: "config"@ },
    ]
}

/// The directories that every project starts with.
pub fn base_steps() -> (steps: Vec<SetupStep>)
    ensures
        steps_model(steps@) == base_plan(),
{
    let mut steps: Vec<SetupStep> = Vec::new();
    steps.push(SetupStep::CreateDirectory { path: String::from_str("src/omnixtracker") });
    steps.push(SetupStep::CreateDirectory { path: String::from_str("src/constants") });
    steps.push(SetupStep::CreateDirectory { path: String::from_str("src/utils") });
    steps.push(SetupStep::CreateDirectory { path: String::from_str("tests") });
    steps.push(SetupStep::CreateDirectory { path: String::from_str("Xdocs") });
    steps.push(SetupStep::CreateDirectory { path: String::from_str("Xtls") });
    steps.push(SetupStep::CreateDirectory { path: String::from_str("config") });
    assert(steps_model(steps@) =~= base_plan());
    steps
}

/// The continuous-integration workflow.
pub open spec fn ci_workflow_plan(project_name: Seq<char>) -> Seq<SetupModel> {
    seq![
        SetupModel::CreateDirectory { path: ".github/workflows"@ },
        SetupModel::WriteFile {
            directory: ".github/workflows"@,
            file_name: "ci.yml"@,
            text: project::ci_workflow_text(project_name),
        },
    ]
}

/// The continuous-integration workflow.
pub fn ci_workflow_steps(project_name: &str) -> (steps: Vec<SetupStep>)
    ensures
        steps_model(steps@) == ci_workflow_plan(project_name@),
{
    let mut steps: Vec<SetupStep> = Vec::new();
    steps.push(SetupStep::CreateDirectory { path: String::from_str(".github/workflows") });
    steps.push(
        SetupStep::WriteFile {
            directory: String::from_str(".github/workflows"),
            file_name: String::from_str("ci.yml"),
            text: project::generate_ci_workflow_content(project_name),
        },
    );
    assert(steps_model(steps@) =~= ci_workflow_plan(project_name@));
    steps
}

/// The notes and tool guides.
pub open spec fn xtls_plan() -> Seq<SetupModel> {
    seq![
        SetupModel::CreateDirectory { path: "Xtls"@ },
        SetupModel::WriteFile {
            directory: "Xtls"@,
            file_name: "DMV.txt"@,
            text: xtls::XTLS_DMV_TEXT@,
        },
        SetupModel::WriteFile {
            directory: "Xtls"@,
            file_name: "Layout.txt"@,
            text: xtls::XTLS_LAYOUT_TEXT@,
        },
        SetupModel::WriteFile {
            directory: "Xtls"@,
            file_name: "XynPro_Instructions.txt"@,
            text: xtls::XTLS_XYNPRO_TEXT@,
        },
        SetupModel::WriteFile {
            directory: "Xtls"@,
            file_name: "XynTools-HowTo.txt"@,
            text: xtls::XTLS_XYNTOOLS_TEXT@,
        },
    ]
}

/// The notes and tool guides.
pub fn xtls_steps() -> (steps: Vec<SetupStep>)
    ensures
        steps_model(steps@) == xtls_plan(),
{
    let mut steps: Vec<SetupStep> = Vec::new();
    steps.push(SetupStep::CreateDirectory { path: String::from_str("Xtls") });
    steps.push(
        SetupStep::WriteFile {
            directory: String::from_str("Xtls"),
            file_name: String::from_str("DMV.txt"),
            text: xtls::generate_xtls_dmv(),
        },
    );
    steps.push(
        SetupStep::WriteFile {
            directory: String::from_str("Xtls"),
            file_name: String::from_str("Layout.txt"),
            text: xtls::generate_xtls_layout(),
        },
    );
    steps.push(
        SetupStep::WriteFile {
            directory: String::from_str("Xtls"),
            file_name: String::from_str("XynPro_Instructions.txt"),
            text: xtls::generate_xtls_xynpro(),
        },
    );
    steps.push(
        SetupStep::WriteFile {
            directory: String::from_str("Xtls"),
            file_name: String::from_str("XynTools-HowTo.txt"),
            text: xtls::generate_xtls_xyntools(),
        },
    );
    assert(steps_model(steps@) =~= xtls_plan());
    steps
}

/// The directory for the project's own documents.
pub open spec fn xdocs_plan() -> Seq<SetupModel> {
    seq![
        SetupModel::CreateDirectory { path: "Xdocs"@ },
    ]
}

/// The directory for the project's own documents.
pub fn xdocs_steps() -> (steps: Vec<SetupStep>)
    ensures
        steps_model(steps@) == xdocs_plan(),
{
    let mut steps: Vec<SetupStep> = Vec::new();
    steps.push(SetupStep::CreateDirectory { path: String::from_str("Xdocs") });
    assert(steps_model(steps@) =~= xdocs_plan());
    steps
}

/// The test files.
pub open spec fn test_plan(project_name: Seq<char>) -> Seq<SetupModel> {
    seq![
        SetupModel::CreateDirectory { path: "tests"@ },
        SetupModel::WriteFile {
            directory: "tests"@,
            file_name: "constants_tests.rs"@,
            text: test_suite::CONSTANTS_TESTS_TEXT@,
        },
        SetupModel::WriteFile {
            directory: "tests"@,
            file_name: "omnixmetry_tests.rs"@,
            text: test_suite::omnixmetry_tests_text(project_name),
        },
        SetupModel::WriteFile {
            directory: "tests"@,
            file_name: "omnixerror_tests.rs"@,
            text: test_suite::omnixerror_tests_text(project_name),
        },
        SetupModel::WriteFile {
            directory: "tests"@,
            file_name: "utils_lxsl_tests.rs"@,
            text: test_suite::UTILS_LXSL_TESTS_PART_0@,
        },
    ]
}

/// The test files.
pub fn test_steps(project_name: &str) -> (steps: Vec<SetupStep>)
    ensures
        steps_model(steps@) == test_plan(project_name@),
{
    let mut steps: Vec<SetupStep> = Vec::new();
    steps.push(SetupStep::CreateDirectory { path: String::from_str("tests") });
    steps.push(
        SetupStep::WriteFile {
            directory: String::from_str("tests"),
            file_name: String::from_str("constants_tests.rs"),
            text: test_suite::generate_constants_tests_content(),
        },
    );
    steps.push(
        SetupStep::WriteFile {
            directory: String::from_str("tests"),
            file_name: String::from_str("omnixmetry_tests.rs"),
            text: test_suite::generate_omnixmetry_tests_content(project_name),
        },
    );
    steps.push(
        SetupStep::WriteFile {
            directory: String::from_str("tests"),
            file_name: String::from_str("omnixerror_tests.rs"),
            text: test_suite::generate_omnixerror_tests_content(project_name),
        },
    );
    steps.push(
        SetupStep::WriteFile {
            directory: String::from_str("tests"),
            file_name: String::from_str("utils_lxsl_tests.rs"),
            text: test_suite::generate_utils_lxsl_tests_content(),
        },
    );
    assert(steps_model(steps@) =~= test_plan(project_name@));
    steps
}

/// The GPU kernel sources.
pub open spec fn omnixelerator_plan() -> Seq<SetupModel> {
    seq![
        SetupModel::CreateDirectory { path: "omnixelerator"@ },
        SetupModel::WriteFile {
            directory: "omnixelerator"@,
            file_name: "cuda_kernels.cu"@,
            text: omnixelerator::GPU_CUDA_TEXT@,
        },
        SetupModel::WriteFile {
            directory: "omnixelerator"@,
            file_name: "opencl_kernels.cl"@,
            text: omnixelerator::GPU_OPENCL_TEXT@,
        },
        SetupModel::WriteFile {
            directory: "omnixelerator"@,
            file_name: "kernels.rs"@,
            text: omnixelerator::OMNIXELERATOR_KERNELS_TEXT@,
        },
        SetupModel::WriteFile {
            directory: "omnixelerator"@,
            file_name: "wgpu_shaders.wgsl"@,
            text: omnixelerator::WGPU_SHADERS_TEXT@,
        },
    ]
}

/// The GPU kernel sources.
pub fn omnixelerator_steps() -> (steps: Vec<SetupStep>)
    ensures
        steps_model(steps@) == omnixelerator_plan(),
{
    let mut steps: Vec<SetupStep> = Vec::new();
    steps.push(SetupStep::CreateDirectory { path: String::from_str("omnixelerator") });
    steps.push(
        SetupStep::WriteFile {
            directory: String::from_str("omnixelerator"),
            file_name: String::from_str("cuda_kernels.cu"),
            text: omnixelerator::generate_gpu_cuda(),
        },
    );
    steps.push(
        SetupStep::WriteFile {
            directory: String::from_str("omnixelerator"),
            file_name: String::from_str("opencl_kernels.cl"),
            text: omnixelerator::generate_gpu_opencl(),
        },
    );
    steps.push(
        SetupStep::WriteFile {
            directory: String::from_str("omnixelerator"),
            file_name: String::from_str("kernels.rs"),
            text: omnixelerator::generate_omnixelerator_kernels(),
        },
    );
    steps.push(
        SetupStep::WriteFile {
            directory: String::from_str("omnixelerator"),
            file_name: String::from_str("wgpu_shaders.wgsl"),
            text: omnixelerator::generate_wgpu_shaders(),
        },
    );
    assert(steps_model(steps@) =~= omnixelerator_plan());
    steps
}

/// The signature-line sources.
pub open spec fn utils_plan() -> Seq<SetupModel> {
    seq![
        SetupModel::WriteFile {
            directory: "src/utils"@,
            file_name: "lxsl.rs"@,
            text: omnixtracker::LXSL_TEXT@,
        },
        SetupModel::WriteFile {
            directory: "src/utils"@,
            file_name: "mod.rs"@,
            text: omnixtracker::UTILS_MOD_TEXT@,
        },
    ]
}

/// The signature-line sources.
pub fn utils_steps() -> (steps: Vec<SetupStep>)
    ensures
        steps_model(steps@) == utils_plan(),
{
    let mut steps: Vec<SetupStep> = Vec::new();
    steps.push(
        SetupStep::WriteFile {
            directory: String::from_str("src/utils"),
            file_name: String::from_str("lxsl.rs"),
            text: omnixtracker::generate_lxsl_content(ARCMOON_SIGNATURE),
        },
    );
    steps.push(
        SetupStep::WriteFile {
            directory: String::from_str("src/utils"),
            file_name: String::from_str("mod.rs"),
            text: omnixtracker::generate_utils_mod_content(),
        },
    );
    assert(steps_model(steps@) =~= utils_plan());
    steps
}

/// The error and metrics sources.
pub open spec fn omnixtracker_plan() -> Seq<SetupModel> {
    seq![
        SetupModel::WriteFile {
            directory: "src/omnixtracker"@,
            file_name: "omnixerror.rs"@,
            text: omnixtracker::omnixerror_text(),
        },
        SetupModel::WriteFile {
            directory: "src/omnixtracker"@,
            file_name: "omnixmetry.rs"@,
            text: omnixtracker::OMNIXMETRY_TEXT@,
        },
        SetupModel::WriteFile {
            directory: "src/omnixtracker"@,
            file_name: "mod.rs"@,
            text: omnixtracker::OMNIXTRACKER_MOD_TEXT@,
        },
    ]
}

/// The error and metrics sources.
pub fn omnixtracker_steps() -> (steps: Vec<SetupStep>)
    ensures
        steps_model(steps@) == omnixtracker_plan(),
{
    let mut steps: Vec<SetupStep> = Vec::new();
    steps.push(
        SetupStep::WriteFile {
            directory: String::from_str("src/omnixtracker"),
            file_name: String::from_str("omnixerror.rs"),
            text: omnixtracker::generate_omnixerror_content(),
        },
    );
    steps.push(
        SetupStep::WriteFile {
            directory: String::from_str("src/omnixtracker"),
            file_name: String::from_str("omnixmetry.rs"),
            text: omnixtracker::generate_omnixmetry_content(),
        },
    );
    steps.push(
        SetupStep::WriteFile {
            directory: String::from_str("src/omnixtracker"),
            file_name: String::from_str("mod.rs"),
            text: omnixtracker::generate_omnixtracker_mod_content(),
        },
    );
    assert(steps_model(steps@) =~= omnixtracker_plan());
    steps
}

/// The task-execution sources.
pub open spec fn omnixkore_plan() -> Seq<SetupModel> {
    seq![
        SetupModel::WriteFile {
            directory: "src/omnixkore"@,
            file_name: "execution.rs"@,
            text: omnixkore::execution_text(),
        },
        SetupModel::WriteFile {
            directory: "src/omnixkore"@,
            file_name: "parallexelerator.rs"@,
            text: omnixkore::parallexelerator_text(),
        },
        SetupModel::WriteFile {
            directory: "src/omnixkore"@,
            file_name: "persistence.rs"@,
            text: omnixkore::PERSISTENCE_TEXT@,
        },
        SetupModel::WriteFile {
            directory: "src/omnixkore"@,
            file_name: "resource_monitor.rs"@,
            text: omnixkore::RESOURCE_MONITOR_TEXT@,
        },
        SetupModel::WriteFile {
            directory: "src/omnixkore"@,
            file_name: "task_manager.rs"@,
            text: omnixkore::TASK_MANAGER_TEXT@,
        },
        SetupModel::WriteFile {
            directory: "src/omnixkore"@,
            file_name: "mod.rs"@,
            text: omnixkore::OMNIXKORE_MOD_TEXT@,
        },
    ]
}

/// The task-execution sources.
pub fn omnixkore_steps() -> (steps: Vec<SetupStep>)
    ensures
        steps_model(steps@) == omnixkore_plan(),
{
    let mut steps: Vec<SetupStep> = Vec::new();
    steps.push(
        SetupStep::WriteFile {
            directory: String::from_str("src/omnixkore"),
            file_name: String::from_str("execution.rs"),
            text: omnixkore::generate_execution_content(),
        },
    );
    steps.push(
        SetupStep::WriteFile {
            directory: String::from_str("src/omnixkore"),
            file_name: String::from_str("parallexelerator.rs"),
            text: omnixkore::generate_parallexelerator_content(),
        },
    );
    steps.push(
        SetupStep::WriteFile {
            directory: String::from_str("src/omnixkore"),
            file_name: String::from_str("persistence.rs"),
            text: omnixkore::generate_persistence_content(),
        },
    );
    steps.push(
        SetupStep::WriteFile {
            directory: String::from_str("src/omnixkore"),
            file_name: String::from_str("resource_monitor.rs"),
            text: omnixkore::generate_resource_monitor_content(),
        },
    );
    steps.push(
        SetupStep::WriteFile {
            directory: String::from_str("src/omnixkore"),
            file_name: String::from_str("task_manager.rs"),
            text: omnixkore::generate_task_manager_content(),
        },
    );
    steps.push(
        SetupStep::WriteFile {
            directory: String::from_str("src/omnixkore"),
            file_name: String::from_str("mod.rs"),
            text: omnixkore::generate_omnixkore_mod_content(),
        },
    );
    assert(steps_model(steps@) =~= omnixkore_plan());
    steps
}

/// The storage-and-retrieval tree.
pub open spec fn aproar_plan() -> Seq<SetupModel> {
    seq![
        SetupModel::CreateDirectory { path: "src/aproar/compression"@ },
        SetupModel::CreateDirectory { path: "src/aproar/ntm"@ },
        SetupModel::CreateDirectory { path: "src/aproar/storage"@ },
        SetupModel::CreateDirectory { path: "src/aproar/retrieval"@ },
        SetupModel::CreateDirectory { path: "src/aproar/utility"@ },
        SetupModel::WriteFile {
            directory: "src/aproar/compression"@,
            file_name: "lz4_compression.rs"@,
            text: aproar::LZ4_COMPRESSION_TEXT@,
        },
        SetupModel::WriteFile {
            directory: "src/aproar/compression"@,
            file_name: "zstd_compression.rs"@,
            text: aproar::ZSTD_COMPRESSION_TEXT@,
        },
        SetupModel::WriteFile {
            directory: "src/aproar/compression"@,
            file_name: "mod.rs"@,
            text: aproar::COMPRESSION_MOD_TEXT@,
        },
        SetupModel::WriteFile {
            directory: "src/aproar/retrieval"@,
            file_name: "redis_cache.rs"@,
            text: aproar::REDIS_CACHE_TEXT@,
        },
        SetupModel::WriteFile {
            directory: "src/aproar/retrieval"@,
            file_name: "gradient_lru_cache.rs"@,
            text: aproar::GRADIENT_LRU_CACHE_TEXT@,
        },
        SetupModel::WriteFile {
            directory: "src/aproar/retrieval"@,
            file_name: "mod.rs"@,
            text: aproar::RETRIEVAL_MOD_TEXT@,
        },
        SetupModel::WriteFile {
            directory: "src/aproar/ntm"@,
            file_name: "addressing.rs"@,
            text: ntm::ADDRESSING_TEXT@,
        },
        SetupModel::WriteFile {
            directory: "src/aproar/ntm"@,
            file_name: "controller.rs"@,
            text: ntm::CONTROLLER_TEXT@,
        },
        SetupModel::WriteFile {
            directory: "src/aproar/ntm"@,
            file_name: "memory.rs"@,
            text: ntm::MEMORY_TEXT@,
        },
        SetupModel::WriteFile {
            directory: "src/aproar/ntm"@,
            file_name: "read_head.rs"@,
            text: ntm::READ_HEAD_TEXT@,
        },
        SetupModel::WriteFile {
            directory: "src/aproar/ntm"@,
            file_name: "write_head.rs"@,
            text: ntm::WRITE_HEAD_TEXT@,
        },
        SetupModel::WriteFile {
            directory: "src/aproar/ntm"@,
            file_name: "mod.rs"@,
            text: ntm::NTM_MOD_TEXT@,
        },
        SetupModel::WriteFile {
            directory: "src/aproar/storage"@,
            file_name: "hdf5_storage.rs"@,
            text: storage::HDF5_STORAGE_TEXT@,
        },
        SetupModel::WriteFile {
            directory: "src/aproar/storage"@,
            file_name: "parquet_storage.rs"@,
            text: storage::PARQUET_STORAGE_TEXT@,
        },
        SetupModel::WriteFile {
            directory: "src/aproar/storage"@,
            file_name: "rocksdb_storage.rs"@,
            text: storage::ROCKSDB_STORAGE_TEXT@,
        },
        SetupModel::WriteFile {
            directory: "src/aproar/storage"@,
            file_name: "tiledb_storage.rs"@,
            text: storage::TILEDB_STORAGE_TEXT@,
        },
        SetupModel::WriteFile {
            directory: "src/aproar/storage"@,
            file_name: "mod.rs"@,
            text: storage::STORAGE_MOD_TEXT@,
        },
        SetupModel::WriteFile {
            directory: "src/aproar/utility"@,
            file_name: "context_window.rs"@,
            text: aproar::UTILITY_CONTEXT_WINDOW_TEXT@,
        },
        SetupModel::WriteFile {
            directory: "src/aproar/utility"@,
            file_name: "memory_consolidation.rs"@,
            text: aproar::UTILITY_MEMORY_CONSOLIDATION_TEXT@,
        },
        SetupModel::WriteFile {
            directory: "src/aproar/utility"@,
            file_name: "mod.rs"@,
            text: aproar::UTILITY_MOD_TEXT@,
        },
        SetupModel::WriteFile {
            directory: "src/aproar"@,
            file_name: "mod.rs"@,
            text: aproar::aproar_mod_text(),
        },
    ]
}

/// The storage-and-retrieval tree.
pub fn aproar_steps() -> (steps: Vec<SetupStep>)
    ensures
        steps_model(steps@) == aproar_plan(),
{
    let mut steps: Vec<SetupStep> = Vec::new();
    steps.push(SetupStep::CreateDirectory { path: String::from_str("src/aproar/compression") });
    steps.push(SetupStep::CreateDirectory { path: String::from_str("src/aproar/ntm") });
    steps.push(SetupStep::CreateDirectory { path: String::from_str("src/aproar/storage") });
    steps.push(SetupStep::CreateDirectory { path: String::from_str("src/aproar/retrieval") });
    steps.push(SetupStep::CreateDirectory { path: String::from_str("src/aproar/utility") });
    steps.push(
        SetupStep::WriteFile {
            directory: String::from_str("src/aproar/compression"),
            file_name: String::from_str("lz4_compression.rs"),
            text: aproar::generate_lz4_compression_content(),
        },
    );
    steps.push(
        SetupStep::WriteFile {
            directory: String::from_str("src/aproar/compression"),
            file_name: String::from_str("zstd_compression.rs"),
            text: aproar::generate_zstd_compression_content(),
        },
    );
    steps.push(
        SetupStep::WriteFile {
            directory: String::from_str("src/aproar/compression"),
            file_name: String::from_str("mod.rs"),
            text: aproar::generate_compression_mod_content(),
        },
    );
    steps.push(
        SetupStep::WriteFile {
            directory: String::from_str("src/aproar/retrieval"),
            file_name: String::from_str("redis_cache.rs"),
            text: aproar::generate_redis_cache_content(),
        },
    );
    steps.push(
        SetupStep::WriteFile {
            directory: String::from_str("src/aproar/retrieval"),
            file_name: String::from_str("gradient_lru_cache.rs"),
            text: aproar::generate_gradient_lru_cache_content(),
        },
    );
    steps.push(
        SetupStep::WriteFile {
            directory: String::from_str("src/aproar/retrieval"),
            file_name: String::from_str("mod.rs"),
            text: aproar::generate_retrieval_mod_content(),
        },
    );
    steps.push(
        SetupStep::WriteFile {
            directory: String::from_str("src/aproar/ntm"),
            file_name: String::from_str("addressing.rs"),
            text: ntm::generate_addressing_content(),
        },
    );
    steps.push(
        SetupStep::WriteFile {
            directory: String::from_str("src/aproar/ntm"),
            file_name: String::from_str("controller.rs"),
            text: ntm::generate_controller_content(),
        },
    );
    steps.push(
        SetupStep::WriteFile {
            directory: String::from_str("src/aproar/ntm"),
            file_name: String::from_str("memory.rs"),
            text: ntm::generate_memory_content(),
        },
    );
    steps.push(
        SetupStep::WriteFile {
            directory: String::from_str("src/aproar/ntm"),
            file_name: String::from_str("read_head.rs"),
            text: ntm::generate_read_head_content(),
        },
    );
    steps.push(
        SetupStep::WriteFile {
            directory: String::from_str("src/aproar/ntm"),
            file_name: String::from_str("write_head.rs"),
            text: ntm::generate_write_head_content(),
        },
    );
    steps.push(
        SetupStep::WriteFile {
            directory: String::from_str("src/aproar/ntm"),
            file_name: String::from_str("mod.rs"),
            text: ntm::generate_ntm_mod_content(),
        },
    );
    steps.push(
        SetupStep::WriteFile {
            directory: String::from_str("src/aproar/storage"),
            file_name: String::from_str("hdf5_storage.rs"),
            text: storage::generate_hdf5_storage_content(),
        },
    );
    steps.push(
        SetupStep::WriteFile {
            directory: String::from_str("src/aproar/storage"),
            file_name: String::from_str("parquet_storage.rs"),
            text: storage::generate_parquet_storage_content(),
        },
    );
    steps.push(
        SetupStep::WriteFile {
            directory: String::from_str("src/aproar/storage"),
            file_name: String::from_str("rocksdb_storage.rs"),
            text: storage::generate_rocksdb_storage_content(),
        },
    );
    steps.push(
        SetupStep::WriteFile {
            directory: String::from_str("src/aproar/storage"),
            file_name: String::from_str("tiledb_storage.rs"),
            text: storage::generate_tiledb_storage_content(),
        },
    );
    steps.push(
        SetupStep::WriteFile {
            directory: String::from_str("src/aproar/storage"),
            file_name: String::from_str("mod.rs"),
            text: storage::generate_storage_mod_content(),
        },
    );
    steps.push(
        SetupStep::WriteFile {
            directory: String::from_str("src/aproar/utility"),
            file_name: String::from_str("context_window.rs"),
            text: aproar::generate_utility_context_window_content(),
        },
    );
    steps.push(
        SetupStep::WriteFile {
            directory: String::from_str("src/aproar/utility"),
            file_name: String::from_str("memory_consolidation.rs"),
            text: aproar::generate_utility_memory_consolidation_content(),
        },
    );
    steps.push(
        SetupStep::WriteFile {
            directory: String::from_str("src/aproar/utility"),
            file_name: String::from_str("mod.rs"),
            text: aproar::generate_utility_mod_content(),
        },
    );
    steps.push(
        SetupStep::WriteFile {
            directory: String::from_str("src/aproar"),
            file_name: String::from_str("mod.rs"),
            text: aproar::generate_aproar_mod_content(),
        },
    );
    assert(steps_model(steps@) =~= aproar_plan());
    steps
}

/// The files in and directly below the project's directory, written last.
pub open spec fn top_level_plan(project_name: Seq<char>, jwt_secret: Seq<char>) -> Seq<SetupModel> {
    seq![
        SetupModel::WriteFile {
            directory: ""@,
            file_name: ".env"@,
            text: project::env_text(project_name, jwt_secret),
        },
        SetupModel::WriteFile {
            directory: ""@,
            file_name: "src/main.rs"@,
            text: project::MAIN_RS_TEXT@,
        },
        SetupModel::WriteFile {
            directory: ""@,
            file_name: "LICENSE"@,
            text: project::license_text(),
        },
        SetupModel::WriteFile {
            directory: ""@,
            file_name: "src/lib.rs"@,
            text: project::LIB_RS_TEXT@,
        },
        SetupModel::WriteFile {
            directory: ""@,
            file_name: "build.rs"@,
            text: project::BUILD_RS_TEXT@,
        },
        SetupModel::WriteFile {
            directory: ""@,
            file_name: ".gitignore"@,
            text: project::GITIGNORE_TEXT@,
        },
        SetupModel::WriteFile {
            directory: ""@,
            file_name: "README.md"@,
            text: project::readme_text(project_name, uppercase(project_name)),
        },
        SetupModel::WriteFile {
            directory: ""@,
            file_name: "src/constants/mod.rs"@,
            text: project::constants_text(project_name),
        },
        SetupModel::WriteFile {
            directory: ""@,
            file_name: "Cargo.toml"@,
            text: project::cargo_toml_text(project_name),
        },
        SetupModel::WriteFile {
            directory: ""@,
            file_name: "config/prometheus.yml"@,
            text: project::prometheus_yml_text(project_name),
        },
    ]
}

/// The files in and directly below the project's directory, written last.
///
/// `jwt_secret` is the signing secret that the settings file starts with.
pub fn top_level_steps(project_name: &str, jwt_secret: &str) -> (steps: Vec<SetupStep>)
    ensures
        steps_model(steps@) == top_level_plan(project_name@, jwt_secret@),
{
    let mut steps: Vec<SetupStep> = Vec::new();
    steps.push(
        SetupStep::WriteFile {
            directory: String::from_str(""),
            file_name: String::from_str(".env"),
            text: project::env_content(project_name, jwt_secret),
        },
    );
    steps.push(
        SetupStep::WriteFile {
            directory: String::from_str(""),
            file_name: String::from_str("src/main.rs"),
            text: project::generate_main_rs_content(),
        },
    );
    steps.push(
        SetupStep::WriteFile {
            directory: String::from_str(""),
            file_name: String::from_str("LICENSE"),
            text: project::generate_license_content(),
        },
    );
    steps.push(
        SetupStep::WriteFile {
            directory: String::from_str(""),
            file_name: String::from_str("src/lib.rs"),
            text: project::generate_lib_rs_content(),
        },
    );
    steps.push(
        SetupStep::WriteFile {
            directory: String::from_str(""),
            file_name: String::from_str("build.rs"),
            text: project::generate_build_rs_content(),
        },
    );
    steps.push(
        SetupStep::WriteFile {
            directory: String::from_str(""),
            file_name: String::from_str(".gitignore"),
            text: project::generate_gitignore_content(),
        },
    );
    steps.push(
        SetupStep::WriteFile {
            directory: String::from_str(""),
            file_name: String::from_str("README.md"),
            text: project::generate_readme_content(project_name),
        },
    );
    steps.push(
        SetupStep::WriteFile {
            directory: String::from_str(""),
            file_name: String::from_str("src/constants/mod.rs"),
            text: project::generate_constants_content(project_name),
        },
    );
    steps.push(
        SetupStep::WriteFile {
            directory: String::from_str(""),
            file_name: String::from_str("Cargo.toml"),
            text: project::generate_cargo_toml_content(project_name),
        },
    );
    steps.push(
        SetupStep::WriteFile {
            directory: String::from_str(""),
            file_name: String::from_str("config/prometheus.yml"),
            text: project::generate_prometheus_yml_content(project_name),
        },
    );
    assert(steps_model(steps@) =~= top_level_plan(project_name@, jwt_secret@));
    steps
}

} // verus!
