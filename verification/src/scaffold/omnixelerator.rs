//! The GPU kernel sources of a new project.
use vstd::prelude::*;
use vstd::string::StringExecFns;

verus! {

/// What `omnixelerator/cuda_kernels.cu` holds in a new project.
pub const GPU_CUDA_TEXT: &'static str = r#"// omnixelerator/cuda_kernels.cu
extern "C" __global__ void vector_add(float* a, float* b, float* result, int num_elements) {
    int idx = blockIdx.x * blockDim.x + threadIdx.x;
    if (idx < num_elements) {
        result[idx] = a[idx] + b[idx];
    }
}
extern "C" __global__ void matrix_multiply(float* a, float* b, float* c, int m, int n, int k) {
    int row = blockIdx.y * blockDim.y + threadIdx.y;
    int col = blockIdx.x * blockDim.x + threadIdx.x;
    if (row < m && col < n) {
        float sum = 0.0f;
        for (int i = 0; i < k; ++i) {
            sum += a[row * k + i] * b[i * n + col];
        }
        c[row * n + col] = sum;
    }
}
extern "C" __global__ void relu_activation(float* data, int num_elements) {
    int idx = blockIdx.x * blockDim.x + threadIdx.x;
    if (idx < num_elements) {
        data[idx] = fmaxf(0.0f, data[idx]);
    }
}
extern "C" __global__ void softmax(float* input, float* output, int num_elements) {
    __shared__ float max_val;
    __shared__ float sum;
    int idx = blockIdx.x * blockDim.x + threadIdx.x;
    float thread_max = -INFINITY;
    if (idx < num_elements) {
        thread_max = input[idx];
    }
    for (int offset = blockDim.x / 2; offset > 0; offset >>= 1) {
        if (threadIdx.x < offset) {
            thread_max = fmaxf(thread_max, __shfl_down_sync(0xffffffff, thread_max, offset));
        }
    }
    if (threadIdx.x == 0) {
        max_val = thread_max;
    }
    __syncthreads();
    float thread_sum = 0.0f;
    if (idx < num_elements) {
        output[idx] = expf(input[idx] - max_val);
        thread_sum = output[idx];
    }
    for (int offset = blockDim.x / 2; offset > 0; offset >>= 1) {
        if (threadIdx.x < offset) {
            thread_sum += __shfl_down_sync(0xffffffff, thread_sum, offset);
        }
    }
    if (threadIdx.x == 0) {
        sum = thread_sum;
    }
    __syncthreads();
    if (idx < num_elements) {
        output[idx] /= sum;
    }
}
"#;

/// The text of `omnixelerator/cuda_kernels.cu`, the same for every project.
pub fn generate_gpu_cuda() -> (text: String)
    ensures
        text@ == GPU_CUDA_TEXT@,
{
    String::from_str(GPU_CUDA_TEXT)
}

/// What `omnixelerator/opencl_kernels.cl` holds in a new project.
pub const GPU_OPENCL_TEXT: &'static str = r#"// omnixelerator/opencl_kernels.cl

__kernel void vector_add(__global const float* a, __global const float* b, __global float* result, int num_elements) {
    int gid = get_global_id(0);
    if (gid < num_elements) {
        result[gid] = a[gid] + b[gid];
    }
}
__kernel void matrix_multiply(__global const float* a, __global const float* b, __global float* c, int m, int n, int k) {
    int row = get_global_id(0);
    int col = get_global_id(1);
if (row < m && col < n) {
        float sum = 0.0f;
        for (int i = 0; i < k; ++i) {
            sum += a[row * k + i] * b[i * n + col];
        }
        c[row * n + col] = sum;
    }
}
__kernel void relu_activation(__global float* data, int num_elements) {
    int gid = get_global_id(0);
    if (gid < num_elements) {
        data[gid] = max(0.0f, data[gid]);
    }
}
__kernel void softmax(__global float* input, __global float* output, int num_elements) {
    __local float max_val;
    __local float sum;
int gid = get_global_id(0);
    float thread_max = -INFINITY;
if (gid < num_elements) {
        thread_max = input[gid];
    }
for (int offset = get_local_size(0) / 2; offset > 0; offset /= 2) {
        if (get_local_id(0) < offset) {
            thread_max = max(thread_max, input[gid + offset]);
        }
        barrier(CLK_LOCAL_MEM_FENCE);
    }
if (get_local_id(0) == 0) {
        max_val = thread_max;
    }
    barrier(CLK_LOCAL_MEM_FENCE);
float thread_sum = 0.0f;
    if (gid < num_elements) {
        output[gid] = exp(input[gid] - max_val);
        thread_sum = output[gid];
    }
for (int offset = get_local_size(0) / 2; offset > 0; offset /= 2) {
        if (get_local_id(0) < offset) {
            thread_sum += output[gid + offset];
        }
        barrier(CLK_LOCAL_MEM_FENCE);
    }
if (get_local_id(0) == 0) {
        sum = thread_sum;
    }
    barrier(CLK_LOCAL_MEM_FENCE);
if (gid < num_elements) {
        output[gid] /= sum;
    }
}
"#;

/// The text of `omnixelerator/opencl_kernels.cl`, the same for every project.
pub fn generate_gpu_opencl() -> (text: String)
    ensures
        text@ == GPU_OPENCL_TEXT@,
{
    String::from_str(GPU_OPENCL_TEXT)
}

/// What `omnixelerator/kernels.rs` holds in a new project.
pub const OMNIXELERATOR_KERNELS_TEXT: &'static str = r#"// omnixelerator/kernels.rs ~=#######D]======A===r===c====M===o===o===n=====<Lord[OMIXELERATOR]Xyn>=====S===t===u===d===i===o===s======[R|$>

use std::sync::Arc;
use cudarc::driver::{CudaDevice, CudaFunction, LaunchConfig};
use cudarc::nvrtc::Ptx;
use crate::omnixtracker::omnixmetry::Metrics;
use crate::omnixtracker::omnixerror::OmnixError;

include!(concat!(env!("OUT_DIR"), "/kernel_strings.rs"));

pub struct Kernels {
    device: Arc<CudaDevice>,
    cuda_vector_add: CudaFunction,
    cuda_matrix_multiply: CudaFunction,
    cuda_relu_activation: CudaFunction,
    cuda_softmax: CudaFunction,
    opencl_kernels: String,
    wgpu_shaders: String,
}

impl Kernels {
    pub fn new() -> Result<Self, OmnixError> {
        let device = CudaDevice::new(0)
            .map_err(|e| OmnixError::CudaError(e.to_string()))?;
        let device = Arc::new(device);

        let ptx = Ptx::from_src(CUDA_KERNELS)
            .map_err(|e| OmnixError::CudaError(e.to_string()))?;

        device.load_ptx(ptx, "cuda_kernels", &["vector_add", "matrix_multiply", "relu_activation", "softmax"])
            .map_err(|e| OmnixError::CudaError(e.to_string()))?;

        Ok(Self {
            cuda_vector_add: device.get_func("cuda_kernels", "vector_add")
                .map_err(|e| OmnixError::CudaError(e.to_string()))?,
            cuda_matrix_multiply: device.get_func("cuda_kernels", "matrix_multiply")
                .map_err(|e| OmnixError::CudaError(e.to_string()))?,
            cuda_relu_activation: device.get_func("cuda_kernels", "relu_activation")
                .map_err(|e| OmnixError::CudaError(e.to_string()))?,
            cuda_softmax: device.get_func("cuda_kernels", "softmax")
                .map_err(|e| OmnixError::CudaError(e.to_string()))?,
            device,
            opencl_kernels: OPENCL_KERNELS.to_string(),
            wgpu_shaders: WGPU_SHADERS.to_string(),
        })
    }

    pub fn vector_add(&self, a: &[f32], b: &[f32]) -> Result<Vec<f32>, OmnixError> {
        let a_dev = self.device.htod_copy(a).map_err(|e| OmnixError::CudaError(e.to_string()))?;
        let b_dev = self.device.htod_copy(b).map_err(|e| OmnixError::CudaError(e.to_string()))?;
        let mut c_dev = self.device.alloc_zeros::<f32>(a.len()).map_err(|e| OmnixError::CudaError(e.to_string()))?;

        let cfg = LaunchConfig::for_num_elems(a.len() as u32);
        unsafe {
            self.cuda_vector_add.launch(cfg, (&mut c_dev, &a_dev, &b_dev, a.len()))
                .map_err(|e| OmnixError::CudaError(e.to_string()))?;
        }

        self.device.dtoh_sync_copy(&c_dev).map_err(|e| OmnixError::CudaError(e.to_string()))
    }

    // Implement other CUDA operations (matrix_multiply, relu_activation, softmax) similarly...

    pub fn get_opencl_kernels(&self) -> &str {
        &self.opencl_kernels
    }

    pub fn get_wgpu_shaders(&self) -> &str {
        &self.wgpu_shaders
    }
}
"#;

/// The text of `omnixelerator/kernels.rs`, the same for every project.
pub fn generate_omnixelerator_kernels() -> (text: String)
    ensures
        text@ == OMNIXELERATOR_KERNELS_TEXT@,
{
    String::from_str(OMNIXELERATOR_KERNELS_TEXT)
}

/// What `omnixelerator/wgpu_shaders.wgsl` holds in a new project.
pub const WGPU_SHADERS_TEXT: &'static str = r#"// omnixelerator/wgpu_shaders.wgsl

@group(0) @binding(0) var<storage, read> a: array<f32>;
@group(0) @binding(1) var<storage, read> b: array<f32>;
@group(0) @binding(2) var<storage, read_write> result: array<f32>;
@compute @workgroup_size(256)
fn vector_add(@builtin(global_invocation_id) global_id: vec3<u32>) {
    let idx = global_id.x;
    if (idx < arrayLength(&result)) {
        result[idx] = a[idx] + b[idx];
    }
}
@group(0) @binding(0) var<storage, read> matrix_a: array<f32>;
@group(0) @binding(1) var<storage, read> matrix_b: array<f32>;
@group(0) @binding(2) var<storage, read_write> matrix_c: array<f32>;
@group(0) @binding(3) var<uniform> dimensions: vec3<u32>;  // m, n, k
@compute @workgroup_size(16, 16)
fn matrix_multiply(@builtin(global_invocation_id) global_id: vec3<u32>) {
    let row = global_id.y;
    let col = global_id.x;
    let m = dimensions.x;
    let n = dimensions.y;
    let k = dimensions.z;
if (row < m && col < n) {
        var sum = 0.0;
        for (var i = 0u; i < k; i = i + 1u) {
            sum = sum + matrix_a[row * k + i] * matrix_b[i * n + col];
        }
        matrix_c[row * n + col] = sum;
    }
}
@group(0) @binding(0) var<storage, read_write> data: array<f32>;
@compute @workgroup_size(256)
fn relu_activation(@builtin(global_invocation_id) global_id: vec3<u32>) {
    let idx = global_id.x;
    if (idx < arrayLength(&data)) {
        data[idx] = max(0.0, data[idx]);
    }
}
@group(0) @binding(0) var<storage, read> input: array<f32>;
@group(0) @binding(1) var<storage, read_write> output: array<f32>;
@compute @workgroup_size(256)
fn softmax(@builtin(global_invocation_id) global_id: vec3<u32>, @builtin(local_invocation_id) local_id: vec3<u32>) {
    let idx = global_id.x;
    let local_idx = local_id.x;
    let num_elements = arrayLength(&input);
var max_val = -1e38;
    var sum = 0.0;
// Find max value
    if (idx < num_elements) {
        max_val = input[idx];
    }
    for (var stride = 128u; stride > 0u; stride /= 2u) {
        if (local_idx < stride) {
            max_val = max(max_val, input[idx + stride]);
        }
        workgroupBarrier();
    }
// Calculate exp and sum
    if (idx < num_elements) {
        output[idx] = exp(input[idx] - max_val);
        sum = output[idx];
    }
    for (var stride = 128u; stride > 0u; stride /= 2u) {
        if (local_idx < stride) {
            sum += output[idx + stride];
        }
        workgroupBarrier();
    }
// Normalize
    if (idx < num_elements) {
        output[idx] /= sum;
    }
}
"#;

/// The text of `omnixelerator/wgpu_shaders.wgsl`, the same for every project.
pub fn generate_wgpu_shaders() -> (text: String)
    ensures
        text@ == WGPU_SHADERS_TEXT@,
{
    String::from_str(WGPU_SHADERS_TEXT)
}

} // verus!
