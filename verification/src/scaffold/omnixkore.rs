//! The task-execution sources of a new project.
use vstd::prelude::*;
use vstd::string::StringExecFns;

verus! {

/// Stretch 1 of 3 of what `src/omnixkore/execution.rs` holds in a new project.
pub const EXECUTION_TEXT_1: &'static str = r#"use crate::omnixkore::task_manager::{TaskMaster, TaskStatus, TaskMetadata};
use crate::omnixtracker::omnixerror::OmniXError;
use crate::constants::*;
use async_trait::async_trait;
use cuda_sys::{
    cuCtxCreate_v2, cuDeviceGet, cuInit, cuModuleGetFunction, cuLaunchKernel, cuMemAlloc_v2,
    cuMemcpyHtoD_v2, cuMemcpyDtoH_v2, cuMemFree_v2, CUcontext, CUdevice, CUfunction, CUmodule,
    CUresult, CUDA_SUCCESS,
};
use futures::future::BoxFuture;
use lazy_static::lazy_static;
use log::{error, warn, debug};
use nvrtc_sys::{
    nvrtcCompileProgram, nvrtcCreateProgram, nvrtcDestroyProgram, nvrtcGetPTX, nvrtcGetPTXSize,
    nvrtcProgram, nvrtcResult, NVRTC_SUCCESS,
};
use opencl3::{
    context::{Context, ContextProperties},
    device::{Device as OpenClDevice, CL_DEVICE_TYPE_GPU},
    platform::get_platforms,
    program::Program,
    queue::CommandQueue,
};
use parking_lot::Mutex;
use std::{
    ffi::{CStr, CString},
    mem::{MaybeUninit, size_of},
    ptr::null_mut,
    sync::Arc,
};
use tokio::task;
use wgpu::{Adapter, Device as WgpuDevice, Instance, Limits, PowerPreference, Queue as WgpuQueue, RequestAdapterOptions};

lazy_static! {
    static ref CUDA_CONTEXT: Arc<Mutex<CudaContext>> = Arc::new(Mutex::new(CudaContext::new().expect("Failed to initialize CUDA context")));
}

pub struct ExecutionContext {
    pub opencl_context: Option<Arc<Mutex<OpenClContext>>>,
    pub cuda_context: Option<Arc<Mutex<CudaContext>>>,
    pub wgpu_context: Option<Arc<Mutex<WgpuContext>>>,
}

impl ExecutionContext {
    pub async fn new() -> Result<Self, OmniXError> {
        let (cuda_ctx, opencl_ctx, wgpu_ctx) = tokio::try_join!(
            Self::initialize_cuda(),
            Self::initialize_opencl(),
            Self::initialize_wgpu()
        )?;
        
        Ok(Self {
            cuda_context: cuda_ctx,
            opencl_context: opencl_ctx,
            wgpu_context: wgpu_ctx,
        })
    }

    async fn initialize_cuda() -> Result<Option<Arc<Mutex<CudaContext>>>, OmniXError> {
        match CudaContext::new().await {
            Ok(context) => Ok(Some(Arc::new(Mutex::new(context)))),
            Err(e) => {
                warn!("Failed to initialize CUDA context: {}", e);
                Ok(None)
            }
        }
    }

    async fn initialize_opencl() -> Result<Option<Arc<Mutex<OpenClContext>>>, OmniXError> {
        match OpenClContext::new().await {
            Ok(context) => Ok(Some(Arc::new(Mutex::new(context)))),
            Err(e) => {
                warn!("Failed to initialize OpenCL context: {}", e);
                Ok(None)
            }
        }
    }

    async fn initialize_wgpu() -> Result<Option<Arc<Mutex<WgpuContext>>>, OmniXError> {
        match WgpuContext::new().await {
            Ok(context) => Ok(Some(Arc::new(Mutex::new(context)))),
            Err(e) => {
                warn!("Failed to initialize WGPU context: {}", e);
                Ok(None)
            }
        }
    }
}

pub struct CudaContext {
    context: CUcontext,
    device: CUdevice,
}

impl CudaContext {
    pub async fn new() -> Result<Self, OmniXError> {
        task::spawn_blocking(|| unsafe {
            check_cuda_error(cuInit(0))?;
            let mut device = MaybeUninit::<CUdevice>::uninit();
            check_cuda_error(cuDeviceGet(device.as_mut_ptr(), 0))?;
            let mut context = MaybeUninit::<CUcontext>::uninit();
            check_cuda_error(cuCtxCreate_v2(context.as_mut_ptr(), 0, device.assume_init()))?;
            Ok(CudaContext {
                context: context.assume_init(),
                device: device.assume_init(),
            })
        })
        .await
        .map_err(|e| OmniXError::CudaInitializationError(e.to_string()))?
    }
}

pub struct OpenClContext {
    context: Context,
    device: OpenClDevice,
    queue: CommandQueue,
    program: Program,
}

impl OpenClContext {
    pub async fn new() -> Result<Self, OmniXError> {
        task::spawn_blocking(|| {
            let platforms = get_platforms()
                .map_err(|e| OmniXError::OpenCLError(e.to_string()))?;
            let platform = platforms
                .first()
                .ok_or(OmniXError::DeviceNotSupported)?;
            let devices = platform
                .get_devices(CL_DEVICE_TYPE_GPU)
                .map_err(|e| OmniXError::OpenCLError(e.to_string()))?;
            let device = devices
                .first()
                .ok_or(OmniXError::DeviceNotSupported)?
                .clone();
            let context_properties = ContextProperties::new().platform(*platform);
            let context = Context::from_device(&device, &context_properties, None, None)
                .map_err(|e| OmniXError::OpenCLError(e.to_string()))?;
            let queue = CommandQueue::create(&context, device, None)
                .map_err(|e| OmniXError::OpenCLError(e.to_string()))?;
            let program_src = include_str!("../../kernels/opencl_kernels.cl");
            let program = Program::create_and_build_from_source(&context, program_src, "")
                .map_err(|e| OmniXError::KernelCompilationError(e.to_string()))?;
            Ok(OpenClContext {
                context,
                device,
                queue,
                program,
            })
        })
        .await
        .map_err(|e| OmniXError::OpenCLError(e.to_string()))?
    }
}

pub struct WgpuContext {
    device: WgpuDevice,
    queue: WgpuQueue,
}

impl WgpuContext {
    pub async fn new() -> Result<Self, OmniXError> {
        let instance = Instance::new(wgpu::InstanceDescriptor {
            backends: wgpu::Backends::all(),
            dx12_shader_compiler: Default::default(),
        });
        let adapter = instance
            .request_adapter(&RequestAdapterOptions {
                power_preference: PowerPreference::HighPerformance,
                compatible_surface: None,
                force_fallback_adapter: false,
            })
            .await
            .ok_or(OmniXError::DeviceNotSupported)?;
        let (device, queue) = adapter
            .request_device(
                &wgpu::DeviceDescriptor {
                    features: wgpu::Features::empty(),
                    limits: Limits::default(),
                    label: None,
                },
                None,
            )
            .await
            .map_err(|e| OmniXError::WgpuInitError(e.to_string()))?;
        Ok(WgpuContext { device, queue })
    }
}

#[async_trait]
pub trait TaskExecutionContext: Send + Sync {
    async fn execute(
        &self,
        task: Box<dyn TaskMaster>,
        metadata: Arc<Mutex<TaskMetadata>>,
    ) -> Result<(), OmniXError>;
}

#[async_trait]
impl TaskExecutionContext for CudaContext {
    async fn execute(
        &self,
        task: Box<dyn TaskMaster>,
        metadata: Arc<Mutex<TaskMetadata>>,
    ) -> Result<(), OmniXError> {
        let task_clone = task.clone();
        task::spawn_blocking(move || unsafe {
            if let Some(kernel_fn) = task_clone.get_cuda_kernel() {
                kernel_fn(null_mut(), null_mut(), 0);
            } else {
                return Err(OmniXError::CudaKernelExecutionError(
                    "No CUDA kernel provided".to_string(),
                ));
            }
            let mut meta = metadata.lock();
            meta.status = TaskStatus::Completed;
            Ok(())
        })
        .await
        .map_err(|e| OmniXError::TaskExecutionError(e.to_string()))?
    }
}

#[async_trait]
impl TaskExecutionContext for OpenClContext {
    async fn execute(
        &self,
        task: Box<dyn TaskMaster>,
        metadata: Arc<Mutex<TaskMetadata>>,
    ) -> Result<(), OmniXError> {
        let task_clone = task.clone();
        let program = self.program.clone();
        let queue = self.queue.clone();
        task::spawn_blocking(move || {
            if let Some(kernel_name) = task_clone.get_opencl_kernel() {
                let kernel = program
                    .create_kernel(kernel_name)
                    .map_err(|e| OmniXError::OpenCLError(e.to_string()))?;
                kernel
                    .enqueue()
                    .map_err(|e| OmniXError::OpenCLError(e.to_string()))?;
            } else {
                return Err(OmniXError::OpenCLError(
                    "No OpenCL kernel provided".to_string(),
                ));
            }
            let mut meta = metadata.lock();
            meta.status = TaskStatus::Completed;
            Ok(())
        })
        .await
        .map_err(|e| OmniXError::TaskExecutionError(e.to_string()))?
    }
}

#[async_trait]
impl TaskExecutionContext for WgpuContext {
    async fn execute(
        &self,
        task: Box<dyn TaskMaster>,
        metadata: Arc<Mutex<TaskMetadata>>,
    ) -> Result<(), OmniXError> {
        let task_clone = task.clone();
        let device = self.device.clone();
        let queue = self.queue.clone();
        task::spawn_blocking(move || {
            let mut encoder = device.create_command_encoder(&wgpu::CommandEncoderDescriptor {
                label: Some("WGPU Task Execution"),
            });
            device.push_error_scope(wgpu::ErrorFilter::Validation);
            task_clone
                .run()
                .map_err(|e| OmniXError::TaskExecutionError(e.to_string()))?;
            let command_buffer = encoder.finish();
            queue.submit(std::iter::once(command_buffer));
            match device.pop_error_scope(){
                Some(wgpu::Error::Validation { description }) => Err(
                    OmniXError::TaskExecutionError(format!(
                        "WGPU validation error: {}",
                        description
                    )),
                ),
                Some(other_error) => Err(OmniXError::TaskExecutionError(format!(
                    "WGPU error: {:?}",
                    other_error
                ))),
                None => {
                    let mut meta = metadata.lock();
                    meta.status = TaskStatus::Completed;
                    Ok(())
                }
            }
        })
        .await
        .map_err(|e| OmniXError::TaskExecutionError(e.to_string()))?
    }
}

#[async_trait]
impl TaskExecutionContext for () {
    async fn execute(
        &self,
        task: Box<dyn TaskMaster>,
        metadata: Arc<Mutex<TaskMetadata>>,
    ) -> Result<(), OmniXError> {
        task.run().await?;
        let mut meta = metadata.lock();
        meta.status = TaskStatus::Completed;
        Ok(())
    }
}

unsafe fn check_cuda_error(result: CUresult) -> Result<(), OmniXError> {
    if result != CUDA_SUCCESS {
        Err(OmniXError::CudaInitializationError(format!(
            "CUDA error code: {}",
            result
        )))
    } else {
        Ok(())
    }
}

unsafe fn check_nvrtc_error(result: nvrtcResult) -> Result<(), OmniXError> {
    if result != NVRTC_SUCCESS {
        Err(OmniXError::KernelCompilationError(format!(
            "NVRTC error code: {:?}",
            result
        )))
    } else {
        Ok(())
    }
}

pub struct KernelCompiler {
    pub context: Arc<Mutex<CudaContext>>,
}

impl KernelCompiler {
    pub fn new(context: Arc<Mutex<CudaContext>>) -> Self {
        KernelCompiler { context }
    }

"#;

/// Stretch 2 of 3 of what `src/omnixkore/execution.rs` holds in a new project.
pub const EXECUTION_TEXT_2: &'static str = r##"    pub async fn compile_kernel(
        &self,
        kernel_code: &str,
        kernel_name: &str,
    ) -> Result<CUmodule, OmniXError> {
        let kernel_code = kernel_code.to_string();
        let kernel_name = kernel_name.to_string();
        let context = Arc::clone(&self.context);
        task::spawn_blocking(move || -> Result<CUmodule, OmniXError> {
            unsafe {
                let kernel_code_cstring = CString::new(kernel_code)
                    .map_err(|e| OmniXError::KernelCompilationError(e.to_string()))?;
                let kernel_name_cstring = CString::new(kernel_name)
                    .map_err(|e| OmniXError::KernelCompilationError(e.to_string()))?;
                let mut program = MaybeUninit::<nvrtcProgram>::uninit();
                check_nvrtc_error(nvrtcCreateProgram(
                    program.as_mut_ptr(),
                    kernel_code_cstring.as_ptr(),
                    kernel_name_cstring.as_ptr(),
                    0,
                    null_mut(),
                    null_mut(),
                ))?;
                let program = program.assume_init();
                let options = [
                    CString::new("--gpu-architecture=compute_70").unwrap(),
                    CString::new("--use_fast_math").unwrap(),
                    CString::new("--std=c++14").unwrap(),
                ];
                let option_ptrs: Vec<*const i8> = options.iter().map(|o| o.as_ptr()).collect();
                let result = nvrtcCompileProgram(program, option_ptrs.len() as i32, option_ptrs.as_ptr());
                if result != NVRTC_SUCCESS {
                    let mut log_size = 0;
                    nvrtc_sys::nvrtcGetProgramLogSize(program, &mut log_size);
                    let mut log = vec![0u8; log_size as usize];
                    nvrtc_sys::nvrtcGetProgramLog(program, log.as_mut_ptr() as *mut i8);
                    let log_str = CStr::from_ptr(log.as_ptr() as *const i8).to_string_lossy();
                    nvrtcDestroyProgram(&mut program);
                    return Err(OmniXError::KernelCompilationError(
                        log_str.to_string(),
                    ));
                }
                let mut ptx_size = 0;
                check_nvrtc_error(nvrtcGetPTXSize(program, &mut ptx_size))?;
                let mut ptx = vec![0u8; ptx_size as usize];
                check_nvrtc_error(nvrtcGetPTX(program, ptx.as_mut_ptr() as *mut i8))?;
                nvrtcDestroyProgram(&mut program);
                let mut module = MaybeUninit::<CUmodule>::uninit();
                check_cuda_error(cuModuleLoadData(
                    module.as_mut_ptr(),
                    ptx.as_ptr() as *const std::ffi::c_void,
                ))?;
                Ok(module.assume_init())
            }
        })
        .await
        .map_err(|e| OmniXError::KernelCompilationError(e.to_string()))?
    }
}

pub async fn execute_cuda_kernel_async(
    module: CUmodule,
    function_name: &str,
    params: &[*mut std::ffi::c_void],
    grid_size: u32,
    block_size: u32,
) -> Result<(), OmniXError> {
    task::spawn_blocking(move || {
        unsafe {
            let function = get_function(module, function_name)?;
            check_cuda_error(cuLaunchKernel(
                function,
                grid_size,
                1,
                1,
                block_size,
                1,
                1,
                0,
                null_mut(),
                params.as_ptr() as *mut *mut std::ffi::c_void,
                null_mut(),
            ))?;
        }
        Ok(())
    })
    .await
    .map_err(|e| OmniXError::CudaKernelExecutionError(e.to_string()))?
}

unsafe fn get_function(module: CUmodule, name: &str) -> Result<CUfunction, OmniXError> {
    let mut function = MaybeUninit::<CUfunction>::uninit();
    let c_name = CString::new(name)
        .map_err(|e| OmniXError::KernelCompilationError(e.to_string()))?;
    check_cuda_error(cuModuleGetFunction(function.as_mut_ptr(), module, c_name.as_ptr()))?;
    Ok(function.assume_init())
}

pub struct CudaArray {
    data: CUdeviceptr,
    size: usize,
}

impl CudaArray {
    pub fn new(size: usize) -> Result<Self, OmniXError> {
        let mut data = MaybeUninit::<CUdeviceptr>::uninit();
        unsafe {
            check_cuda_error(cuMemAlloc_v2(
                data.as_mut_ptr(),
                size * std::mem::size_of::<f32>(),
            ))?;
        }
        Ok(CudaArray {
            data: unsafe { data.assume_init() },
            size,
        })
    }

    pub fn from_slice(slice: &[f32]) -> Result<Self, OmniXError> {
        let mut array = Self::new(slice.len())?;
        unsafe {
            check_cuda_error(cuMemcpyHtoD_v2(
                array.data,
                slice.as_ptr() as *const std::ffi::c_void,
                slice.len() * std::mem::size_of::<f32>(),
            ))?;
        }
        Ok(array)
    }

    pub fn to_vec(&self) -> Result<Vec<f32>, OmniXError> {
        let mut result = vec![0.0f32; self.size];
        unsafe {
            check_cuda_error(cuMemcpyDtoH_v2(
                result.as_mut_ptr() as *mut std::ffi::c_void,
                self.data,
                self.size * std::mem::size_of::<f32>(),
            ))?;
        }
        Ok(result)
    }
}

impl Drop for CudaArray {
    fn drop(&mut self) {
        unsafe {
            let _ = check_cuda_error(cuMemFree_v2(self.data));
        }
    }
}

pub async fn matrix_multiply(a: &[f32], b: &[f32], m: i32, n: i32, k: i32) -> Result<Vec<f32>, OmniXError> {
    let context = CUDA_CONTEXT.clone();
    let compiler = KernelCompiler::new(context);
    if (m * k) as usize != a.len() || (k * n) as usize != b.len() {
        return Err(OmniXError::InvalidDimensionsError("Invalid input dimensions".to_string()));
    }
    let a_gpu = CudaArray::from_slice(a)?;
    let b_gpu = CudaArray::from_slice(b)?;
    let mut c_gpu = CudaArray::new((m * n) as usize)?;
    let kernel_code = r#"
        extern "C" __global__ void matrix_multiply(float *a, float *b, float *c, int m, int n, int k) {
            int row = blockIdx.y * blockDim.y + threadIdx.y;
            int col = blockIdx.x * blockDim.x + threadIdx.x;
            if (row < m && col < n) {
                float sum = 0.0f;
                for (int i = 0; i < k; ++i) {
                    sum += a[row * k + i] * b[i * n + col];
                }
                c[row * n + col] = sum;
            }
        }
    "#;
    let module = compiler.compile_kernel(kernel_code, "matrix_multiply").await?;
    let function_name = "matrix_multiply";
    let params = [
        &a_gpu.data as *const _ as *mut std::ffi::c_void,
        &b_gpu.data as *const _ as *mut std::ffi::c_void,
        &c_gpu.data as *const _ as *mut std::ffi::c_void,
        &m as *const _ as *mut std::ffi::c_void,
        &n as *const _ as *mut std::ffi::c_void,
        &k as *const _ as *mut std::ffi::c_void,
    ];
    let block_size = 16;
    let grid_size_x = ((n as u32 + block_size - 1) / block_size).max(1);
    let grid_size_y = ((m as u32 + block_size - 1) / block_size).max(1);
    execute_cuda_kernel_async(module, function_name, &params, grid_size_x * grid_size_y, block_size).await?;
    let result = c_gpu.to_vec()?;
    Ok(result)
}

pub async fn relu_activation(data: &mut [f32]) -> Result<(), OmniXError> {
    let context = CUDA_CONTEXT.clone();
    let compiler = KernelCompiler::new(context);
    let mut data_gpu = CudaArray::from_slice(data)?;
    let kernel_code = r#"
        extern "C" __global__ void relu_activation(float *data, int n) {
            int idx = blockIdx.x * blockDim.x + threadIdx.x;
            if (idx < n) {
                data[idx] = fmaxf(data[idx], 0.0f);
            }
        }
    "#;
    let module = compiler.compile_kernel(kernel_code, "relu_activation").await?;
    let function_name = "relu_activation";
    let n = data.len() as i32;
    let params = [
        &data_gpu.data as *const _ as *mut std::ffi::c_void,
        &n as *const _ as *mut std::ffi::c_void,
    ];
    let block_size = 256;
    let grid_size = ((data.len() as u32 + block_size - 1) / block_size).max(1);
    execute_cuda_kernel_async(module, function_name, &params, grid_size, block_size).await?;
    let result = data_gpu.to_vec()?;
    data.copy_from_slice(&result);
    Ok(())
}

pub async fn softmax(data: &mut [f32]) -> Result<(), OmniXError> {
    let context = CUDA_CONTEXT.clone();
    let compiler = KernelCompiler::new(context);
    let mut data_gpu = CudaArray::from_slice(data)?;
    let kernel_code = r#"
        extern "C" __global__ void softmax(float *data, int n) {
            __shared__ float max_val;
            __shared__ float sum;
            int idx = blockIdx.x * blockDim.x + threadIdx.x;
            float thread_max = -INFINITY;
            if (idx < n) {
                thread_max = data[idx];
            }
            
            for (int stride = blockDim.x / 2; stride > 0; stride >>= 1) {
                if (threadIdx.x < stride) {
                    thread_max = fmaxf(thread_max, __shfl_down_sync(0xffffffff, thread_max, stride));
                }
            }
            if (threadIdx.x == 0) {
                max_val = thread_max;
            }
            __syncthreads();
            float thread_sum = 0.0f;
            if (idx < n) {
                data[idx] = expf(data[idx] - max_val);
                thread_sum = data[idx];
            }
            for (int stride = blockDim.x / 2; stride > 0; stride >>= 1) {
                if (threadIdx.x < stride) {
                    thread_sum += __shfl_down_sync(0xffffffff, thread_sum, stride);
                }
            }
            if (threadIdx.x == 0) {
                sum = thread_sum;
            }
            __syncthreads();
            if (idx < n) {
                data[idx] /= sum;
            }
        }
    "#;
    let module = compiler.compile_kernel(kernel_code, "softmax").await?;
    let function_name = "softmax";
    let n = data.len() as i32;
    let params = [
        &data_gpu.data as *const _ as *mut std::ffi::c_void,
        &n as *const _ as *mut std::ffi::c_void,
    ];
    let block_size = 256;
    let grid_size = ((data.len() as u32 + block_size - 1) / block_size).max(1);
    execute_cuda_kernel_async(module, function_name, &params, grid_size, block_size).await?;
    let result = data_gpu.to_vec()?;
    data.copy_from_slice(&result);
    Ok(())
}

#[cfg(test)]
mod tests {
    use super::*;
    use assert_approx_eq::assert_approx_eq;

    #[tokio::test]
    async fn test_matrix_multiply() {
        let a = vec![1.0, 2.0, 3.0, 4.0];
        let b = vec![5.0, 6.0, 7.0, 8.0];
        let m = 2;
        let n = 2;
        let k = 2;
        let result = matrix_multiply(&a, &b, m, n, k).await.unwrap();
        assert_eq!(result, vec![19.0, 22.0, 43.0, 50.0]);
    }

    #[tokio::test]
    async fn test_relu_activation() {
        let mut data = vec![-1.0, 0.0, 1.0, 2.0];
        relu_activation(&mut data).await.unwrap();
        assert_eq!(data, vec![0.0, 0.0, 1.0, 2.0]);
    }

    #[tokio::test]
    async fn test_softmax() {
        let mut data = vec![1.0, 2.0, 3.0, 4.0];
        softmax(&mut data).await.unwrap();
        let sum: f32 = data.iter().sum();
        assert_approx_eq!(sum, 1.0, 1e-6);
    }

"##;

/// Stretch 3 of 3 of what `src/omnixkore/execution.rs` holds in a new project.
pub const EXECUTION_TEXT_3: &'static str = r##"    #[tokio::test]
    async fn test_cuda_kernel_execution() {
        let context = CUDA_CONTEXT.clone();
        let compiler = KernelCompiler::new(context);
        let kernel_code = r#"
            extern "C" __global__ void add_one(float *data, int n) {
                int idx = blockIdx.x * blockDim.x + threadIdx.x;
                if (idx < n) {
                    data[idx] += 1.0f;
                }
            }
        "#;
        let module = compiler.compile_kernel(kernel_code, "add_one").await.unwrap();
        let data = vec![1.0f32, 2.0, 3.0, 4.0];
        let mut data_gpu = CudaArray::from_slice(&data).unwrap();
        let n = data.len() as i32;
        let params = [
            &data_gpu.data as *const _ as *mut std::ffi::c_void,
            &n as *const _ as *mut std::ffi::c_void,
        ];
        execute_cuda_kernel_async(module, "add_one", &params, 1, 256).await.unwrap();
        let result = data_gpu.to_vec().unwrap();
        assert_eq!(result, vec![2.0, 3.0, 4.0, 5.0]);
    }

    #[tokio::test]
async fn test_matrix_multiply_large() {
    let size = 1000;
    let a = vec![1.0; size * size];
    let b = vec![2.0; size * size];
    let result = matrix_multiply(&a, &b, size as i32, size as i32, size as i32).await.unwrap();
    assert_eq!(result.len(), size * size);
    assert!(result.iter().all(|&x| (x - (size as f32 * 2.0)).abs() < 1
    assert_eq!(result.len(), size * size);
    assert!(result.iter().all(|&x| (x - (size as f32 * 2.0)).abs() < 1e-6));
    }
}"##;

/// What `src/omnixkore/execution.rs` holds in a new project.
pub open spec fn execution_text() -> Seq<char> {
    EXECUTION_TEXT_1@ + EXECUTION_TEXT_2@ + EXECUTION_TEXT_3@
}

/// The text of `src/omnixkore/execution.rs`, the same for every project.
pub fn generate_execution_content() -> (text: String)
    ensures
        text@ == execution_text(),
{
    let mut text = String::from_str(EXECUTION_TEXT_1);
    text.append(EXECUTION_TEXT_2);
    text.append(EXECUTION_TEXT_3);
    text
}

/// Stretch 1 of 2 of what `src/omnixkore/parallexelerator.rs` holds in a new project.
pub const PARALLEXELERATOR_TEXT_1: &'static str = r#"// src/omnixkore/parallexelerator.rs ~=#######D]======A===r===c====M===o===o===n=====<Lord[OMNIXELERATOR]Xyn>=====S===t===u===d===i===o===s======[R|$>
use crate::task::{TaskMaster, TaskMetadata, TaskStatus, TaskWrapper, Hyperparameters, TunerConfig, TaskProgress};
use crate::execution::{ExecutionContext, CudaContext, OpenClContext, WgpuContext};
use crate::omnixtracker::omnixerror::{OmniXError, OmniXErrorManager};
use crate::persistence::{PersistenceManager, ComplexTaskState};
use crate::resource_monitor::{SystemHardware, GPUInfo};
use tokio::sync::{mpsc, oneshot, Semaphore};
use opencl3::device::Device as OpenCLDevice;
use log::{debug, error, info, trace, warn};
use futures::stream::FuturesUnordered;
use serde::{Serialize, Deserialize};
use nvml_wrapper::{Nvml, Device};
use async_trait::async_trait;
use tokio::task::JoinHandle;
use sha2::{Digest, Sha256};
use warp::reject::Reject;
use std::time::Duration;
use parking_lot::Mutex;
use futures::FutureExt;
use rayon::prelude::*;
use std::ffi::CString;
use std::sync::Arc;
use uuid::Uuid;
use chrono::Utc;
use rand::Rng;
use bincode;

#[async_trait]
pub trait OmniXurge: Send + Sync {
    async fn parallelize_task<T: TaskMaster + 'static>(&self, task: T) -> Result<Uuid, OmniXError>;
    async fn get_parallelized_task_status(&self, task_id: Uuid) -> Option<TaskMetadata>;
    async fn get_resource_utilization(&self) -> Result<ResourceMonitor, OmniXError>;
    async fn tune_hyperparameters<H: Hyperparameters>(&self, config: TunerConfig<H>) -> Result<H, OmniXError>;
    async fn accelerate(&self) -> Result<(), OmniXError>;
    async fn decelerate(&self) -> Result<(), OmniXError>;
    async fn collect_metrics(&self) -> Result<Metrics, OmniXError>;
    async fn shutdown(&self) -> Result<(), OmniXError>;
    async fn submit_task_with_progress<T: TaskMaster + 'static, F: Fn(TaskProgress) + Send + 'static>(
        &self,
        task: T,
        progress_callback: F,
    ) -> Result<Uuid, OmniXError>;
    async fn recover_and_resume_tasks(&self) -> Result<(), OmniXError>;
}

pub struct ParalleXelerator {
    task_sender: mpsc::Sender<TaskWrapper>,
    task_store: Arc<dashmap::DashMap<Uuid, TaskMetadata>>,
    db: sled::Db,
    resource_monitor: Arc<Mutex<ResourceMonitor>>,
    hardware: SystemHardware,
    task_concurrency: Arc<AtomicUsize>,
}

#[async_trait]
impl OmniXurge for ParalleXelerator {
    async fn parallelize_task<T: TaskMaster + 'static>(&self, task: T) -> Result<Uuid, OmniXError> {
        let task_id = Uuid::new_v4();
        let metadata = TaskMetadata {
            id: task_id,
            submitted_at: Utc::now(),
            started_at: None,
            completed_at: None,
            dependencies: task.dependencies(),
            gpu_compatible: task.is_gpu_compatible(),
            status: TaskStatus::Queued,
            complexity: task.estimated_complexity(),
            priority: task.priority(),
        };

        let task_wrapper = TaskWrapper {
            task: Box::new(task),
            metadata: metadata.clone(),
            cancel_token: None,
        };

        self.task_sender.send(task_wrapper).await
            .map_err(|e| OmniXError::TaskSubmissionError(format!("Failed to submit task: {}", e)))?;

        self.task_store.insert(task_id, metadata.clone());
        self.db.insert(task_id.to_string(), bincode::serialize(&metadata)?)?;
        info!("Task submitted successfully with ID: {}", task_id);
        Ok(task_id)
    }

    async fn get_parallelized_task_status(&self, task_id: Uuid) -> Option<TaskMetadata> {
        self.task_store.get(&task_id).map(|entry| entry.value().clone())
    }

    async fn get_resource_utilization(&self) -> Result<ResourceMonitor, OmniXError> {
        let monitor = self.resource_monitor.lock().clone();
        Ok(monitor)
    }

    async fn tune_hyperparameters<H: Hyperparameters>(&self, config: TunerConfig<H>) -> Result<H, OmniXError> {
        let mut rng = rand::thread_rng();
        let mut population: Vec<H> = (0..config.population_size)
            .map(|_| config.initial_hyperparameters.clone().mutate())
            .collect();
        let mut global_best = config.initial_hyperparameters.clone();
        let mut global_best_score = (config.objective_function)(&global_best);
        
        for _ in 0..config.iterations {
            let (new_population, scores): (Vec<H>, Vec<f64>) = population.into_par_iter()
                .map(|particle| {
                    let score = (config.objective_function)(&particle);
                    (particle, score)
                })
                .unzip();
            population = new_population;

            let (best_particle, best_score) = population.iter()
                .zip(scores.iter())
                .max_by(|(_, a), (_, b)| a.partial_cmp(b).unwrap_or(CmpOrdering::Equal))
                .map(|(p, s)| (p.clone(), *s))
                .unwrap();

            if best_score > global_best_score {
                global_best = best_particle;
                global_best_score = best_score;
            }

            population = population.into_par_iter()
                .map(|p| p.crossover(&global_best).mutate())
                .collect();
        }
        Ok(global_best)
    }

    async fn accelerate(&self) -> Result<(), OmniXError> {
        let mut resource = self.resource_monitor.lock();
        let cpu_usage = resource.cpu_usage.iter().sum::<f32>() / resource.cpu_usage.len() as f32;
        let gpu_usage = resource.gpu_usage.iter().sum::<f32>() / resource.gpu_usage.len() as f32;
    
        if cpu_usage < 70.0 && gpu_usage < 70.0 {
            self.task_concurrency.fetch_add(1, Ordering::SeqCst);
            info!("Accelerated: Increased task concurrency");
        } else {
            warn!("Cannot accelerate: Resource usage is too high");
        }
        Ok(())
    }
    
    async fn decelerate(&self) -> Result<(), OmniXError> {
        let current_concurrency = self.task_concurrency.load(Ordering::SeqCst);
        if current_concurrency > 1 {
            self.task_concurrency.fetch_sub(1, Ordering::SeqCst);
            info!("Decelerated: Decreased task concurrency");
        } else {
            warn!("Cannot decelerate: Task concurrency is already at minimum");
        }
        Ok(())
    }

    async fn collect_metrics(&self) -> Result<Metrics, OmniXError> {
        let resource = self.resource_monitor.lock();
        let cpu_average = resource.cpu_usage.iter().sum::<f32>() / resource.cpu_usage.len() as f32;
        let gpu_average = if !resource.gpu_usage.is_empty() {
            resource.gpu_usage.iter().sum::<f32>() / resource.gpu_usage.len() as f32
        } else {
            0.0
        };
        let memory_usage_ratio = (self.hardware.total_memory - resource.available_memory) as f32 / self.hardware.total_memory as f32;
        let active_tasks = self.task_store.iter().filter(|entry| {
            matches!(entry.value().status, TaskStatus::Running | TaskStatus::Queued)
        }).count();
        let queued_tasks = self.task_store.iter().filter(|entry| {
            matches!(entry.value().status, TaskStatus::Queued)
        }).count();

        Ok(Metrics {
            cpu_usage_average: cpu_average,
            gpu_usage_average: gpu_average,
            memory_usage_ratio,
            active_tasks,
            queued_tasks,
        })
    }

    async fn shutdown(&self) -> Result<(), OmniXError> {
        info!("Initiating ParalleXelerator shutdown");
        for entry in self.task_store.iter() {
            if let TaskStatus::Running = entry.value().status {
                if let Some(cancel_token) = &entry.value().cancel_token {
                    let _ = cancel_token.send(());
                }
            }
        }
        tokio::time::timeout(Duration::from_secs(30), self.wait_for_tasks_completion()).await
            .map_err(|_| OmniXError::ShutdownError("Timed out waiting for tasks to complete".to_string()))?;
        
        self.db.flush_async().await
            .map_err(|e| OmniXError::ShutdownError(format!("Failed to flush database: {}", e)))?;
        
        info!("ParalleXelerator shutdown completed successfully");
        Ok(())
    }

    async fn submit_task_with_progress<T: TaskMaster + 'static, F: Fn(TaskProgress) + Send + 'static>(
        &self,
        task: T,
        progress_callback: F,
    ) -> Result<Uuid, OmniXError> {
        let task_id = Uuid::new_v4();
        let (progress_sender, mut progress_receiver) = mpsc::channel(100);
    
        let wrapped_task = Box::new(move || {
            let result = task.run();
            if let Err(ref e) = result {
                progress_callback(TaskProgress {
                    task_id,
                    progress: 1.0,
                    status: TaskStatus::Failed,
                    message: Some(e.to_string()),
                });
            } else {
                progress_callback(TaskProgress {
                    task_id,
                    progress: 1.0,
                    status: TaskStatus::Completed,
                    message: None,
                });
            }
            result
        }) as Box<dyn FnOnce() -> Result<(), OmniXError> + Send + 'static>;
    
        let task_wrapper = TaskWrapper {
            task: wrapped_task,
            metadata: TaskMetadata {
                id: task_id,
                submitted_at: Utc::now(),
                started_at: None,
                completed_at: None,
                dependencies: task.dependencies(),
                gpu_compatible: task.is_gpu_compatible(),
                status: TaskStatus::Queued,
                complexity: task.estimated_complexity(),
                priority: task.priority(),
            },
            cancel_token: None,
        };
    
        self.task_sender.send(task_wrapper).await
            .map_err(|e| OmniXError::TaskSubmissionError(format!("Failed to submit task: {}", e)))?;
    
        tokio::spawn(async move {
            while let Some(progress) = progress_receiver.recv().await {
                progress_callback(progress);
            }
        });
    
        Ok(task_id)
    }

    async fn recover_and_resume_tasks(&self) -> Result<(), OmniXError> {
        let tasks = self.db.iter()
            .filter_map(|res| res.ok())
            .filter_map(|(key, value)| {
                let task_id = Uuid::parse_str(std::str::from_utf8(&key).ok()?).ok()?;
                let metadata: TaskMetadata = bincode::deserialize(&value).ok()?;
                if matches!(metadata.status, TaskStatus::Running | TaskStatus::Queued) {
                    Some((task_id, metadata))
                } else {
                    None
                }
            })
            .collect::<Vec<_>>();

        for (task_id, mut metadata) in tasks {
            metadata.status = TaskStatus::Queued;
            let task_wrapper = TaskWrapper {
                task: Box::new(RecoverableTask { id: task_id }),
                metadata: metadata.clone(),
                cancel_token: None,
            };

            self.task_sender.send(task_wrapper).await
                .map_err(|e| OmniXError::TaskSubmissionError(format!("Failed to resume task: {}", e)))?;

            self.task_store.insert(task_id, metadata.clone());
            self.db.insert(task_id.to_string(), bincode::serialize(&metadata)?)?;
            info!("Resumed task with ID: {}", task_id);
        }

        Ok(())
    }
}

"#;

/// Stretch 2 of 2 of what `src/omnixkore/parallexelerator.rs` holds in a new project.
pub const PARALLEXELERATOR_TEXT_2: &'static str = r#"impl ParalleXelerator {
    async fn wait_for_tasks_completion(&self) -> Result<(), OmniXError> {
        let mut interval = tokio::time::interval(Duration::from_secs(1));
        loop {
            interval.tick().await;
            let active_tasks = self.task_store.iter().filter(|entry| {
                matches!(entry.value().status, TaskStatus::Running | TaskStatus::Queued)
            }).count();
            
            if active_tasks == 0 {
                break;
            }
            
            info!("Waiting for {} active tasks to complete", active_tasks);
        }
        Ok(())
    }

    pub async fn shutdown(&self) -> Result<(), OmniXError> {
        info!("Initiating ParalleXelerator shutdown");
        
        self.close_task_sender().await?;
        
        for entry in self.task_store.iter_mut() {
            if let TaskStatus::Running = entry.value().status {
                if let Some(cancel_token) = &entry.value().cancel_token {
                    let _ = cancel_token.send(());
                    entry.value_mut().status = TaskStatus::Cancelled;
                }
            }
        }
        
        match tokio::time::timeout(Duration::from_secs(30), self.wait_for_tasks_completion()).await {
            Ok(_) => info!("All tasks completed successfully"),
            Err(_) => {
                warn!("Timed out waiting for tasks to complete. Some tasks may not have finished.");
            }
        }
        
        self.persist_final_state().await?;
        
        self.db.flush_async().await
            .map_err(|e| OmniXError::ShutdownError(format!("Failed to flush database: {}", e)))?;
        
        info!("ParalleXelerator shutdown completed successfully");
        Ok(())
    }

    async fn close_task_sender(&self) -> Result<(), OmniXError> {
        if let Some(sender) = self.task_sender.lock().await.take() {
            sender.close();
        }
        Ok(())
    }

    async fn persist_final_state(&self) -> Result<(), OmniXError> {
        for (task_id, metadata) in self.task_store.iter() {
            self.db.insert(task_id.to_string(), bincode::serialize(metadata)?)?;
        }
        Ok(())
    }
}"#;

/// What `src/omnixkore/parallexelerator.rs` holds in a new project.
pub open spec fn parallexelerator_text() -> Seq<char> {
    PARALLEXELERATOR_TEXT_1@ + PARALLEXELERATOR_TEXT_2@
}

/// The text of `src/omnixkore/parallexelerator.rs`, the same for every project.
pub fn generate_parallexelerator_content() -> (text: String)
    ensures
        text@ == parallexelerator_text(),
{
    let mut text = String::from_str(PARALLEXELERATOR_TEXT_1);
    text.append(PARALLEXELERATOR_TEXT_2);
    text
}

/// What `src/omnixkore/persistence.rs` holds in a new project.
pub const PERSISTENCE_TEXT: &'static str = r#"use crate::omnixtracker::omnixerror::{OmniXError, OmniXErrorManager};
use serde::{Serialize, Deserialize};
use chrono::{DateTime, Utc};
use uuid::Uuid;
use sled::Db;

pub struct PersistenceManager {
    pub task_id: Uuid,
    pub db: Db,
}

impl PersistenceManager {
    pub fn new(task_id: Uuid) -> Result<Self, OmniXError> {
        let db_path = format!("task_{}_persistence", task_id);
        let db = sled::open(&db_path).map_err(|e| OmniXError::DatabaseError(e.to_string()))?;
        Ok(Self { task_id, db })
    }

    pub async fn persist_state(&self, state: &[u8]) -> Result<(), OmniXError> {
        self.db.insert("state", state).map_err(|e| OmniXError::DatabaseError(e.to_string()))?;
        self.db.flush_async().await.map_err(|e| OmniXError::DatabaseError(e.to_string()))?;
        Ok(())
    }

    pub async fn should_cancel(&self) -> Result<bool, OmniXError> {
        Ok(self.db.contains_key("cancel").map_err(|e| OmniXError::DatabaseError(e.to_string()))?)
    }

    pub async fn mark_as_completed(&self) -> Result<(), OmniXError> {
        self.db.insert("status", "completed").map_err(|e| OmniXError::DatabaseError(e.to_string()))?;
        self.db.flush_async().await.map_err(|e| OmniXError::DatabaseError(e.to_string()))?;
        Ok(())
    }
}

#[derive(Serialize, Deserialize)]
pub struct ComplexTaskState {
    pub current_iteration: usize,
    pub total_iterations: usize,
    pub partial_result: rust_decimal::Decimal,
    pub last_checkpoint: DateTime<Utc>,
    pub computation_hash: String,
}"#;

/// The text of `src/omnixkore/persistence.rs`, the same for every project.
pub fn generate_persistence_content() -> (text: String)
    ensures
        text@ == PERSISTENCE_TEXT@,
{
    String::from_str(PERSISTENCE_TEXT)
}

/// What `src/omnixkore/resource_monitor.rs` holds in a new project.
pub const RESOURCE_MONITOR_TEXT: &'static str = r#"use crate::omnixtracker::omnixerror::OmniXError;
use crate::constants::*;
use opencl3::{
    device::{CL_DEVICE_TYPE_GPU, Device as OpenCLDevice},
    platform::get_platforms,
};
use sysinfo::{System, SystemExt, CpuExt, ComponentExt};
use serde::{Deserialize, Serialize};
use std::time::{Duration, Instant};
use nvml_wrapper::{Device, Nvml};
use parking_lot::{Mutex, RwLock};
use log::{info, warn, error};
use std::sync::Arc;
use tokio::task;

#[derive(Clone, Serialize, Deserialize, Debug)]
pub struct SystemHardware {
    pub total_memory: usize,
    pub gpus: Vec<GPUInfo>,
    pub cpu_cores: usize,
}

impl SystemHardware {
    pub async fn new(nvml: &Arc<Nvml>) -> Result<Self, OmniXError> {
        let total_memory = Self::get_total_memory()?;
        let gpus = Self::get_gpus(nvml)?;
        let cpu_cores = num_cpus::get();
        Ok(Self {
            total_memory,
            gpus,
            cpu_cores,
        })
    }

    fn get_total_memory() -> Result<usize, OmniXError> {
        let mut system = System::new_all();
        system.refresh_memory();
        Ok(system.total_memory() as usize * 1024)
    }

    fn get_gpus(nvml: &Arc<Nvml>) -> Result<Vec<GPUInfo>, OmniXError> {
        let device_count = nvml.device_count().map_err(|e| OmniXError::NvmlError(e.to_string()))?;
        let mut gpus = Vec::new();
        for i in 0..device_count {
            let device = nvml.device_by_index(i).map_err(|e| OmniXError::NvmlError(e.to_string()))?;
            let opencl_device = Self::get_opencl_device(i)?;
            gpus.push(GPUInfo { device, opencl_device });
        }
        Ok(gpus)
    }

    fn get_opencl_device(gpu_index: usize) -> Result<Option<OpenCLDevice>, OmniXError> {
        let platforms = get_platforms().map_err(|e| OmniXError::OpenCLError(e.to_string()))?;
        for platform in platforms {
            if let Ok(devices) = platform.get_devices(CL_DEVICE_TYPE_GPU) {
                if let Some(device) = devices.get(gpu_index) {
                    return Ok(Some(device.clone()));
                }
            }
        }
        Ok(None)
    }

    pub fn print_summary(&self) {
        println!("System Hardware Summary:");
        println!("-------------------------");
        println!("Total Memory: {} GB", self.total_memory / (1024 * 1024 * 1024));
        println!("CPU Cores: {}", self.cpu_cores);
        println!("GPUs: {}", self.gpus.len());
        for (i, gpu) in self.gpus.iter().enumerate() {
            println!("  GPU {}:", i);
            if let Ok(name) = gpu.device.name() {
                println!("    Name: {}", name);
            }
            if let Ok(memory) = gpu.device.memory_info() {
                println!("    Memory: {} GB", memory.total / (1024 * 1024 * 1024));
            }
            if let Ok(cc) = gpu.device.cuda_compute_capability() {
                println!("    Compute Capability: {}.{}", cc.0, cc.1);
            }
            println!("    OpenCL Support: {}", if gpu.opencl_device.is_some() { "Yes" } else { "No" });
        }
    }
}

#[derive(Clone, Serialize, Deserialize, Debug)]
pub struct GPUInfo {
    pub device: Device,
    pub opencl_device: Option<OpenCLDevice>,
}

#[derive(Clone, Serialize, Deserialize, Debug)]
pub struct ResourceMonitor {
    pub gpu_temperature: Vec<f32>,
    pub available_memory: usize,
    pub cpu_temperature: f32,
    pub cpu_usage: Vec<f32>,
    pub gpu_usage: Vec<f32>,
}

impl ResourceMonitor {
    pub fn new(hardware: &SystemHardware) -> Self {
        Self {
            gpu_temperature: vec![0.0; hardware.gpus.len()],
            available_memory: 0,
            cpu_temperature: 0.0,
            cpu_usage: vec![0.0; hardware.cpu_cores],
            gpu_usage: vec![0.0; hardware.gpus.len()],
        }
    }

    pub async fn update(&mut self, nvml: &Arc<Nvml>, hardware: &SystemHardware) -> Result<(), OmniXError> {
        let (memory_info, cpu_info, gpu_info) = tokio::try_join!(
            task::spawn_blocking(Self::get_memory_info),
            task::spawn_blocking(|| Self::get_cpu_info(hardware.cpu_cores)),
            Self::get_gpu_info(nvml, &hardware.gpus)
        )?;
        self.available_memory = memory_info;
        self.cpu_usage = cpu_info.0;
        self.cpu_temperature = cpu_info.1;
        self.gpu_usage = gpu_info.0;
        self.gpu_temperature = gpu_info.1;
        Ok(())
    }

    fn get_memory_info() -> Result<usize, OmniXError> {
        let mut system = System::new_all();
        system.refresh_memory();
        Ok(system.available_memory() as usize * 1024)
    }

    fn get_cpu_info(cpu_cores: usize) -> Result<(Vec<f32>, f32), OmniXError> {
        let mut system = System::new_all();
        system.refresh_cpu();
        system.refresh_components_list();
        
        let cpu_usage: Vec<f32> = system.cpus().iter().take(cpu_cores)
            .map(|cpu| cpu.cpu_usage() as f32)
            .collect();
        let cpu_temp = system.components()
            .iter()
            .find(|component| component.label().contains("CPU"))
            .map(|cpu| cpu.temperature() as f32)
            .unwrap_or(0.0);
        Ok((cpu_usage, cpu_temp))
    }

    async fn get_gpu_info(nvml: &Arc<Nvml>, gpus: &[GPUInfo]) -> Result<(Vec<f32>, Vec<f32>), OmniXError> {
        let mut gpu_usage = Vec::with_capacity(gpus.len());
        let mut gpu_temp = Vec::with_capacity(gpus.len());
        for gpu in gpus {
            let utilization = gpu.device.utilization_rates()
                .map_err(|e| OmniXError::NvmlError(e.to_string()))?;
            gpu_usage.push(utilization.gpu as f32);
            let temperature = gpu.device.temperature()
                .map_err(|e| OmniXError::NvmlError(e.to_string()))?;
            gpu_temp.push(temperature as f32);
        }
        Ok((gpu_usage, gpu_temp))
    }

    pub fn print_summary(&self) {
        println!("Resource Monitor Summary:");
        println!("-------------------------");
        println!("Available Memory: {} GB", self.available_memory / (1024 * 1024 * 1024));
        println!("CPU Usage:");
        for (i, usage) in self.cpu_usage.iter().enumerate() {
            println!("  Core {}: {:.2}%", i, usage);
        }
        println!("CPU Temperature: {:.2}°C", self.cpu_temperature);
        println!("GPU Usage:");
        for (i, (usage, temp)) in self.gpu_usage.iter().zip(self.gpu_temperature.iter()).enumerate() {
            println!("  GPU {}: {:.2}% (Temperature: {:.2}°C)", i, usage, temp);
        }
    }
}"#;

/// The text of `src/omnixkore/resource_monitor.rs`, the same for every project.
pub fn generate_resource_monitor_content() -> (text: String)
    ensures
        text@ == RESOURCE_MONITOR_TEXT@,
{
    String::from_str(RESOURCE_MONITOR_TEXT)
}

/// What `src/omnixkore/task_manager.rs` holds in a new project.
pub const TASK_MANAGER_TEXT: &'static str = r#"use crate::omnixtracker::omnixerror::OmniXError;
use serde::{Deserialize, Serialize};
use std::collections::BinaryHeap;
use async_trait::async_trait;
use chrono::{DateTime, Utc};
use std::future::Future;
use parking_lot::Mutex;
use std::cmp::Ordering;
use tokio::sync::mpsc;
use std::ffi::c_void;
use std::sync::Arc;
use uuid::Uuid;

#[derive(Clone, Serialize, Deserialize, Debug)]
pub struct TaskMetadata {
    pub id: Uuid,
    pub submitted_at: DateTime<Utc>,
    pub started_at: Option<DateTime<Utc>>,
    pub completed_at: Option<DateTime<Utc>>,
    pub dependencies: Vec<Uuid>,
    pub gpu_compatible: bool,
    pub status: TaskStatus,
    pub complexity: f32,
    pub priority: u8,
}

#[derive(Debug, Serialize, Deserialize, Clone, PartialEq)]
pub enum TaskStatus {
    Cancelled,
    Completed,
    Queued,
    Running,
    Failed,
    Paused,
}

#[async_trait]
pub trait TaskMaster: Send + Sync {
    fn get_cuda_kernel(&self) -> Option<unsafe extern "C" fn(*mut c_void, *mut c_void, usize)>;
    async fn run(&self) -> Result<(), OmniXError>;
    fn get_opencl_kernel(&self) -> Option<&str>;
    fn estimated_complexity(&self) -> f32;
    fn is_gpu_compatible(&self) -> bool;
    fn dependencies(&self) -> Vec<Uuid>;
    fn priority(&self) -> u8;
}

pub struct TaskWrapper {
    pub cancel_token: Option<tokio::sync::oneshot::Sender<()>>,
    pub task: Box<dyn TaskMaster>,
    pub metadata: TaskMetadata,
}

impl Ord for TaskWrapper {
    fn cmp(&self, other: &Self) -> Ordering {
        self.metadata.priority.cmp(&other.metadata.priority)
            .then_with(|| other.metadata.submitted_at.cmp(&self.metadata.submitted_at))
    }
}

impl PartialOrd for TaskWrapper {
    fn partial_cmp(&self, other: &Self) -> Option<Ordering> {
        Some(self.cmp(other))
    }
}

impl PartialEq for TaskWrapper {
    fn eq(&self, other: &Self) -> bool {
        self.metadata.id == other.metadata.id
    }
}

impl Eq for TaskWrapper {}

#[derive(Clone, Debug)]
pub struct TaskProgress {
    pub task_id: Uuid,
    pub progress: f32,
    pub status: TaskStatus,
    pub message: Option<String>,
}

pub trait Hyperparameters: Clone + Send + Sync {
    fn crossover(&self, other: &Self) -> Self;
    fn mutate(&self) -> Self;
}

#[derive(Clone, Serialize, Deserialize, Debug)]
pub struct TunerConfig<H: Hyperparameters> {
    pub objective_function: Arc<dyn Fn(&H) -> f64 + Send + Sync>,
    pub initial_hyperparameters: H,
    pub population_size: usize,
    pub iterations: usize,
}

#[derive(Clone)]
pub struct DummyTask {
    pub id: Uuid,
}

#[async_trait]
impl TaskMaster for DummyTask {
    async fn run(&self) -> Result<(), OmniXError> {
        tokio::time::sleep(Duration::from_secs(2)).await;
        Ok(())
    }

    fn is_gpu_compatible(&self) -> bool {
        false
    }

    fn estimated_complexity(&self) -> f32 {
        10.0
    }

    fn priority(&self) -> u8 {
        5
    }

    fn get_cuda_kernel(&self) -> Option<unsafe extern "C" fn(*mut c_void, *mut c_void, usize)> {
        None
    }

    fn get_opencl_kernel(&self) -> Option<&str> {
        None
    
    }

    fn dependencies(&self) -> Vec<Uuid> {
        vec![]
    }
}

pub struct ProgressTrackingTask {
    pub inner: Box<dyn TaskMaster>,
    pub progress_sender: mpsc::Sender<TaskProgress>,
    pub task_id: Uuid,
}

#[async_trait]
impl TaskMaster for ProgressTrackingTask {
    async fn run(&self) -> Result<(), OmniXError> {
        let total_steps = 100;
        for i in 0..=total_steps {
            if i % 10 == 0 {
                let progress = TaskProgress {
                    task_id: self.task_id,
                    progress: i as f32 / total_steps as f32,
                    status: TaskStatus::Running,
                    message: Some(format!("Step {} of {}", i, total_steps)),
                };
                if let Err(e) = self.progress_sender.send(progress).await {
                    warn!("Failed to send progress update: {}", e);
                }
            }
            tokio::time::sleep(Duration::from_millis(50)).await;
        }
        self.inner.run().await
    }

    fn is_gpu_compatible(&self) -> bool {
        self.inner.is_gpu_compatible()
    }

    fn estimated_complexity(&self) -> f32 {
        self.inner.estimated_complexity()
    }

    fn priority(&self) -> u8 {
        self.inner.priority()
    }

    fn get_cuda_kernel(&self) -> Option<unsafe extern "C" fn(*mut c_void, *mut c_void, usize)> {
        self.inner.get_cuda_kernel()
    }

    fn get_opencl_kernel(&self) -> Option<&str> {
        self.inner.get_opencl_kernel()
    }

    fn dependencies(&self) -> Vec<Uuid> {
        self.inner.dependencies()
    }
}

pub struct RecoverableTask {
    pub id: Uuid,
    pub state: Vec<u8>,
}

#[async_trait]
impl TaskMaster for RecoverableTask {
    async fn run(&self) -> Result<(), OmniXError> {
        let state: ComplexTaskState = bincode::deserialize(&self.state)
            .map_err(|e| OmniXError::TaskExecutionError(format!("Failed to deserialize task state: {}", e)))?;
        info!("Resuming task {} from iteration {} of {}", self.id, state.current_iteration, state.total_iterations);
        let mut result = state.partial_result;
        let mut rng = rand::thread_rng();
        let checkpoint_interval = DEFAULT_CHECKPOINT_INTERVAL;
        let persistence_manager = PersistenceManager::new(self.id)
            .map_err(|e| OmniXError::TaskExecutionError(format!("Failed to initialize persistence manager: {}", e)))?;
        for i in state.current_iteration..state.total_iterations {
            result = result.checked_add(rust_decimal::Decimal::from_f32(rng.gen_range(0.0..1.0)).ok_or_else(|| 
                OmniXError::TaskExecutionError("Failed to generate random decimal".to_string())
            )?).ok_or_else(|| 
                OmniXError::TaskExecutionError("Decimal overflow occurred".to_string())
            )?;
            if i % checkpoint_interval == 0 {
                let new_state = ComplexTaskState {
                    current_iteration: i,
                    total_iterations: state.total_iterations,
                    partial_result: result,
                    last_checkpoint: Utc::now(),
                    computation_hash: Self::compute_hash(&result),
                };
                let serialized_state = bincode::serialize(&new_state)
                    .map_err(|e| OmniXError::TaskExecutionError(format!("Failed to serialize task state: {}", e)))?;
                
                persistence_manager.persist_state(&serialized_state).await
                    .map_err(|e| OmniXError::TaskExecutionError(format!("Failed to persist task state: {}", e)))?;
            }
            if persistence_manager.should_cancel().await? {
                info!("Task {} cancelled at iteration {}", self.id, i);
                return Err(OmniXError::TaskCancellationError(format!("Task {} cancelled", self.id)));
            }
        }
        info!("Task {} completed with final result: {}", self.id, result);
        persistence_manager.mark_as_completed().await
            .map_err(|e| OmniXError::TaskExecutionError(format!("Failed to mark task as completed: {}", e)))?;
        Ok(())
    }

    fn is_gpu_compatible(&self) -> bool {
        false
    }

    fn estimated_complexity(&self) -> f32 {
        50.0
    }

    fn priority(&self) -> u8 {
        5
    }

    fn get_cuda_kernel(&self) -> Option<unsafe extern "C" fn(*mut c_void, *mut c_void, usize)> {
        None
    }

    fn get_opencl_kernel(&self) -> Option<&str> {
        None
    }

    fn dependencies(&self) -> Vec<Uuid> {
        vec![]
    }
}

impl RecoverableTask {
    fn compute_hash(value: &rust_decimal::Decimal) -> String {
        let mut hasher = Sha256::new();
        hasher.update(value.to_string().as_bytes());
        let result = hasher.finalize();
        base64::encode(&result)
    }
}"#;

/// The text of `src/omnixkore/task_manager.rs`, the same for every project.
pub fn generate_task_manager_content() -> (text: String)
    ensures
        text@ == TASK_MANAGER_TEXT@,
{
    String::from_str(TASK_MANAGER_TEXT)
}

/// What `src/omnixkore/mod.rs` holds in a new project.
pub const OMNIXKORE_MOD_TEXT: &'static str = r#"pub mod execution;
pub mod parallexelerator;
pub mod persistence;
pub mod resource_monitor;
pub mod task_manager;

pub use crate::omnixkore::execution::{ExecutionContext, CudaContext, OpenClContext, WgpuContext};
pub use crate::omnixkore::parallexelerator::ParalleXelerator;
pub use crate::omnixkore::persistence::{PersistenceManager, ComplexTaskState};
pub use crate::omnixkore::resource_monitor::ResourceMonitor;
pub use crate::omnixkore::task_manager::{TaskMaster, TaskMetadata, TaskStatus, TaskWrapper, Hyperparameters, TunerConfig, TaskProgress};"#;

/// The text of `src/omnixkore/mod.rs`, the same for every project.
pub fn generate_omnixkore_mod_content() -> (text: String)
    ensures
        text@ == OMNIXKORE_MOD_TEXT@,
{
    String::from_str(OMNIXKORE_MOD_TEXT)
}

} // verus!
