//! The neural-memory sources of a new project.
use vstd::prelude::*;
use vstd::string::StringExecFns;

verus! {

/// What `src/aproar/ntm/addressing.rs` holds in a new project.
pub const ADDRESSING_TEXT: &'static str = r#"use ndarray::{Array1, Array2};
use ndarray_stats::QuantileExt;
use crate::omnixtracker::omnixerror::NTMError;

pub struct AddressingMechanism {
    memory_size: usize,
    key_size: usize,
}

impl AddressingMechanism {
    pub fn new(memory_size: usize, key_size: usize) -> Self {
        AddressingMechanism { memory_size, key_size }
    }

    pub fn content_addressing(&self, key: &Array1<f32>, beta: f32, memory: &Array2<f32>) -> Result<Array1<f32>, NTMError> {
        if key.len() != self.key_size {
            return Err(NTMError::ShapeMismatch {
                expected: vec![self.key_size],
                actual: vec![key.len()],
            });
        }
        let similarities = memory.dot(key);
        let scaled_similarities = similarities * beta;
        self.softmax(&scaled_similarities)
    }

    pub fn interpolate(&self, w_prev: &Array1<f32>, w_c: &Array1<f32>, g: f32) -> Result<Array1<f32>, NTMError> {
        if w_prev.len() != self.memory_size || w_c.len() != self.memory_size {
            return Err(NTMError::ShapeMismatch {
                expected: vec![self.memory_size, self.memory_size],
                actual: vec![w_prev.len(), w_c.len()],
            });
        }
        Ok(w_prev * (1.0 - g) + w_c * g)
    }

    pub fn shift(&self, w: &Array1<f32>, s: &Array1<f32>) -> Result<Array1<f32>, NTMError> {
        if w.len() != self.memory_size || s.len() != 3 {
            return Err(NTMError::ShapeMismatch {
                expected: vec![self.memory_size, 3],
                actual: vec![w.len(), s.len()],
            });
        }
        let mut w_shifted = Array1::zeros(self.memory_size);
        for i in 0..self.memory_size {
            for j in -1..=1 {
                let idx = (i as i32 + j).rem_euclid(self.memory_size as i32) as usize;
                w_shifted[i] += w[idx] * s[(j + 1) as usize];
            }
        }
        Ok(w_shifted)
    }

    fn softmax(&self, x: &Array1<f32>) -> Result<Array1<f32>, NTMError> {
        if x.is_empty() {
            return Err(NTMError::InvalidArgument("Input array is empty in softmax function".to_string()));
        }

        if x.iter().any(|&a| a.is_nan()) {
            return Err(NTMError::InvalidArgument("Input array contains NaN values in softmax function".to_string()));
        }

        let max = x.max().ok_or_else(|| NTMError::ComputationError("Failed to compute max value".to_string()))?;
        let exp = x.mapv(|a| (a - max).exp());
        let sum = exp.sum();
        Ok(exp / sum)
    }
}"#;

/// The text of `src/aproar/ntm/addressing.rs`, the same for every project.
pub fn generate_addressing_content() -> (text: String)
    ensures
        text@ == ADDRESSING_TEXT@,
{
    String::from_str(ADDRESSING_TEXT)
}

/// What `src/aproar/ntm/controller.rs` holds in a new project.
pub const CONTROLLER_TEXT: &'static str = r#"use super::*;
use std::cell::RefCell;

pub struct NTMController {
    memory: Memory,
    read_head: ReadHead,
    write_head: WriteHead,
    controller_size: usize,
    memory_vector_size: usize,
    num_read_heads: usize,
    num_write_heads: usize,
    lstm: LSTM,
    prev_read_weights: RefCell<Vec<Array1<f32>>>,
    prev_write_weights: RefCell<Vec<Array1<f32>>>,
}

impl NTMController {
    pub fn new(memory_size: usize, memory_vector_size: usize, controller_size: usize, num_read_heads: usize, num_write_heads: usize) -> Result<Self, OmniXError> {
        let read_head = ReadHead::new(memory_size, memory_vector_size);
        let write_head = WriteHead::new(memory_size, memory_vector_size, memory_vector_size);
        let input_size = memory_vector_size * num_read_heads + memory_vector_size;
        let output_size = controller_size + num_read_heads * (memory_vector_size + 6) + num_write_heads * (memory_vector_size * 2 + 6);
        
        Ok(NTMController {
            memory: Memory::new(memory_size, memory_vector_size),
            read_head,
            write_head,
            controller_size,
            memory_vector_size,
            num_read_heads,
            num_write_heads,
            lstm: LSTM::new(input_size, controller_size, output_size),
            prev_read_weights: RefCell::new(vec![Array1::zeros(memory_size); num_read_heads]),
            prev_write_weights: RefCell::new(vec![Array1::zeros(memory_size); num_write_heads]),
        })
    }

    pub fn forward(&self, input: &Array1<f32>) -> Result<(Array1<f32>, Array1<f32>), OmniXError> {
        let mut prev_read_weights = self.prev_read_weights.borrow_mut();
        let mut prev_write_weights = self.prev_write_weights.borrow_mut();
        let memory = self.memory.read_memory();

        let mut read_vectors = Vec::with_capacity(self.num_read_heads);
        for weights in prev_read_weights.iter() {
            read_vectors.push(self.read_head.read(&self.memory, weights)?);
        }

        let controller_input = Array1::from_iter(input.iter().cloned().chain(read_vectors.iter().flat_map(|v| v.iter().cloned())));
        let controller_output = self.lstm.forward(&controller_input)?;

        let mut output = controller_output.slice(s![..self.controller_size]).to_owned();
        let mut idx = self.controller_size;

        for i in 0..self.num_read_heads {
            let weights = self.read_head.get_weights(
                &controller_output.slice(s![idx..idx + self.memory_vector_size + 6]),
                &prev_read_weights[i],
                &memory,
            )?;
            let read_vector = self.read_head.read(&self.memory, &weights)?;
            output = Array1::from_iter(output.iter().cloned().chain(read_vector.iter().cloned()));
            prev_read_weights[i] = weights;
            idx += self.memory_vector_size + 6;
        }

        for i in 0..self.num_write_heads {
            let weights = self.write_head.get_weights(
                &controller_output.slice(s![idx..idx + self.memory_vector_size + 6]),
                &prev_write_weights[i],
                &memory,
            )?;
            let erase_vector = self.write_head.get_erase_vector(&controller_output.slice(s![idx..]))?;
            let add_vector = self.write_head.get_add_vector(&controller_output.slice(s![idx..]))?;
            self.memory.write(&weights, &erase_vector, &add_vector)?;
            prev_write_weights[i] = weights;
            idx += self.memory_vector_size * 2 + 6;
        }

        Ok((output, controller_output))
    }
}"#;

/// The text of `src/aproar/ntm/controller.rs`, the same for every project.
pub fn generate_controller_content() -> (text: String)
    ensures
        text@ == CONTROLLER_TEXT@,
{
    String::from_str(CONTROLLER_TEXT)
}

/// What `src/aproar/ntm/memory.rs` holds in a new project.
pub const MEMORY_TEXT: &'static str = r#"use super::*;
use std::sync::Arc;
use parking_lot::RwLock;

#[derive(Clone)]
pub struct Memory {
    memory: Arc<RwLock<Array2<f32>>>,
}

impl Memory {
    pub fn new(memory_size: usize, memory_vector_size: usize) -> Self {
        Memory {
            memory: Arc::new(RwLock::new(Array2::zeros((memory_size, memory_vector_size)))),
        }
    }

    pub fn read(&self, weights: &Array1<f32>) -> Result<Array1<f32>, NTMError> {
        let memory = self.memory.read();
        if weights.len() != memory.shape()[0] {
            return Err(NTMError::ShapeMismatch {
                expected: vec![memory.shape()[0]],
                actual: vec![weights.len()],
            });
        }
        Ok(memory.t().dot(weights))
    }

    pub fn write(&self, weights: &Array1<f32>, erase: &Array1<f32>, add: &Array1<f32>) -> Result<(), NTMError> {
        let mut memory = self.memory.write();
        if weights.len() != memory.shape()[0] || erase.len() != memory.shape()[1] || add.len() != memory.shape()[1] {
            return Err(NTMError::ShapeMismatch {
                expected: vec![memory.shape()[0], memory.shape()[1], memory.shape()[1]],
                actual: vec![weights.len(), erase.len(), add.len()],
            });
        }
        let erase_term = weights.dot(&erase.t());
        let add_term = weights.dot(&add.t());
        *memory = &*memory * (1.0 - &erase_term) + &add_term;
        Ok(())
    }
}"#;

/// The text of `src/aproar/ntm/memory.rs`, the same for every project.
pub fn generate_memory_content() -> (text: String)
    ensures
        text@ == MEMORY_TEXT@,
{
    String::from_str(MEMORY_TEXT)
}

/// What `src/aproar/ntm/read_head.rs` holds in a new project.
pub const READ_HEAD_TEXT: &'static str = r#"use super::*;

pub struct ReadHead {
    addressing: AddressingMechanism,
    key_size: usize,
}

impl ReadHead {
    pub fn new(memory_size: usize, key_size: usize) -> Self {
        ReadHead {
            addressing: AddressingMechanism::new(memory_size, key_size),
            key_size,
        }
    }

    pub fn read(&self, memory: &Memory, weights: &Array1<f32>) -> Result<Array1<f32>, NTMError> {
        memory.read(weights)
    }

    pub fn get_weights(&self, controller_output: &Array1<f32>, prev_weights: &Array1<f32>, memory: &Array2<f32>) -> Result<Array1<f32>, NTMError> {
        if controller_output.len() != self.key_size + 6 {
            return Err(NTMError::ShapeMismatch {
                expected: vec![self.key_size + 6],
                actual: vec![controller_output.len()],
            });
        }

        let key = controller_output.slice(s![..self.key_size]).to_owned();
        let beta = controller_output[self.key_size].exp();
        let g = controller_output[self.key_size + 1].sigmoid();
        let s = controller_output.slice(s![self.key_size+2..self.key_size+5]).to_owned();
        let gamma = controller_output[self.key_size + 5].exp() + 1.0;

        let w_c = self.addressing.content_addressing(&key, beta, memory)?;
        let w_g = self.addressing.interpolate(prev_weights, &w_c, g)?;
        let w_s = self.addressing.shift(&w_g, &s)?;
        self.addressing.sharpen(&w_s, gamma)
    }
}

#[cfg(test)]
mod tests {
    use super::*;
    use approx::assert_abs_diff_eq;

    #[test]
    fn test_read_head() -> Result<(), NTMError> {
        let memory_size = 10;
        let key_size = 4;
        let read_head = ReadHead::new(memory_size, key_size);
        let memory = Memory::new(memory_size, key_size);
        
        // Initialize memory with some values
        let weights = Array1::from_vec(vec![0.1; memory_size]);
        let erase = Array1::zeros(key_size);
        let add = Array1::from_vec(vec![1.0; key_size]);
        memory.write(&weights, &erase, &add)?;

        // Test reading
        let read_weights = Array1::from_vec(vec![0.2; memory_size]);
        let read_result = read_head.read(&memory, &read_weights)?;
        assert_eq!(read_result.len(), key_size);

        // Test get_weights
        let controller_output = Array1::from_vec(vec![0.1; key_size + 6]);
        let prev_weights = Array1::from_vec(vec![0.1; memory_size]);
        let memory_content = memory.read_memory();
        let new_weights = read_head.get_weights(&controller_output, &prev_weights, &memory_content)?;
        
        assert_eq!(new_weights.len(), memory_size);
        assert_abs_diff_eq!(new_weights.sum(), 1.0, epsilon = 1e-6);

        Ok(())
    }

    #[test]
    fn test_read_head_errors() {
        let memory_size = 10;
        let key_size = 4;
        let read_head = ReadHead::new(memory_size, key_size);
        
        // Test error on invalid controller output size
        let invalid_controller_output = Array1::zeros(key_size);
        let prev_weights = Array1::from_vec(vec![0.1; memory_size]);
        let memory_content = Array2::zeros((memory_size, key_size));
        
        assert!(matches!(
            read_head.get_weights(&invalid_controller_output, &prev_weights, &memory_content),
            Err(NTMError::ShapeMismatch { .. })
        ));
    }
}"#;

/// The text of `src/aproar/ntm/read_head.rs`, the same for every project.
pub fn generate_read_head_content() -> (text: String)
    ensures
        text@ == READ_HEAD_TEXT@,
{
    String::from_str(READ_HEAD_TEXT)
}

/// What `src/aproar/ntm/write_head.rs` holds in a new project.
pub const WRITE_HEAD_TEXT: &'static str = r#"use super::*;

pub struct WriteHead {
    addressing: AddressingMechanism,
    key_size: usize,
    memory_vector_size: usize,
}

impl WriteHead {
    pub fn new(memory_size: usize, key_size: usize, memory_vector_size: usize) -> Self {
        WriteHead {
            addressing: AddressingMechanism::new(memory_size, key_size),
            key_size,
            memory_vector_size,
        }
    }

    pub fn get_weights(&self, controller_output: &Array1<f32>, prev_weights: &Array1<f32>, memory: &Array2<f32>) -> Result<Array1<f32>, NTMError> {
        let key = controller_output.slice(s![..self.key_size]).to_owned();
        let beta = controller_output[self.key_size].exp();
        let g = controller_output[self.key_size + 1].sigmoid();
        let s = controller_output.slice(s![self.key_size+2..self.key_size+5]).to_owned();
        let gamma = controller_output[self.key_size + 5].exp() + 1.0;

        let w_c = self.addressing.content_addressing(&key, beta, memory)?;
        let w_g = self.addressing.interpolate(prev_weights, &w_c, g)?;
        let w_s = self.addressing.shift(&w_g, &s)?;
        self.addressing.sharpen(&w_s, gamma)
    }

    pub fn get_erase_vector(&self, controller_output: &Array1<f32>) -> Result<Array1<f32>, NTMError> {
        let start = self.key_size + 6;
        let end = start + self.memory_vector_size;
        if end > controller_output.len() {
            return Err(NTMError::ShapeMismatch {
                expected: vec![end],
                actual: vec![controller_output.len()],
            });
        }
        Ok(controller_output.slice(s![start..end]).mapv(|x| x.sigmoid()))
    }

    pub fn get_add_vector(&self, controller_output: &Array1<f32>) -> Result<Array1<f32>, NTMError> {
        let start = self.key_size + 6 + self.memory_vector_size;
        let end = start + self.memory_vector_size;
        if end > controller_output.len() {
            return Err(NTMError::ShapeMismatch {
                expected: vec![end],
                actual: vec![controller_output.len()],
            });
        }
        Ok(controller_output.slice(s![start..end]).to_owned())
    }
}"#;

/// The text of `src/aproar/ntm/write_head.rs`, the same for every project.
pub fn generate_write_head_content() -> (text: String)
    ensures
        text@ == WRITE_HEAD_TEXT@,
{
    String::from_str(WRITE_HEAD_TEXT)
}

/// What `src/aproar/ntm/mod.rs` holds in a new project.
pub const NTM_MOD_TEXT: &'static str = r#"pub mod addressing;
pub mod controller;
pub mod memory;
pub mod read_head;
pub mod write_head;

pub use addressing::AddressingMechanism;
pub use controller::NTMController;
pub use memory::Memory;
pub use read_head::ReadHead;
pub use write_head::WriteHead;

use ndarray::{Array1, Array2};
use crate::omnixtracker::omnixerror::OmniXError;
use crate::omnixtracker::omnixmetry::{log_info, log_warning, log_error, collect_metrics};
use crate::omnixtracker::metrics::Metrics;
use crate::omnixtracker::constants::*;
use async_trait::async_trait;
use uuid::Uuid;

#[async_trait]
pub trait OmniXurge: Send + Sync {
    async fn parallelize_task<T: TaskMaster + 'static>(&self, task: T) -> Result<Uuid, OmniXError>;
    async fn get_parallelized_task_status(&self, task_id: Uuid) -> Option<TaskMetadata>;
    async fn get_resource_utilization(&self) -> Result<ResourceMonitor, OmniXError>;
    async fn tune_hyperparameters<H: Hyperparameters>(&self, config: TunerConfig<H>) -> Result<H, OmniXError>;
    async fn accelerate(&self) -> Result<(), OmniXError>;
    async fn decelerate(&self) -> Result<(), OmniXError>;
    async fn collect_metrics(&self) -> Result<Metrics, OmniXError>;
    async fn shutdown(&self) -> Result<(), OmniXError>;
    async fn submit_task_with_progress<T: TaskMaster + 'static, F: Fn(TaskProgress) + Send + 'static>(
        &self,
        task: T,
        progress_callback: F,
    ) -> Result<Uuid, OmniXError>;
    async fn recover_and_resume_tasks(&self) -> Result<(), OmniXError>;
}

pub struct NTM {
    controller: NTMController,
    memory: Memory,
    read_head: ReadHead,
    write_head: WriteHead,
    memory_size: usize,
    memory_vector_size: usize,
    controller_output_size: usize,
}

impl NTM {
    pub fn new(
        input_size: usize,
        output_size: usize,
        memory_size: usize,
        memory_vector_size: usize,
        controller_size: usize,
        config: &Config,
    ) -> Result<Self, OmniXError> {
        log_info("Initializing NTM...");
        let controller_output_size = memory_vector_size * 2 + 6;
        let controller = NTMController::new(input_size + memory_vector_size, output_size + controller_output_size, memory_vector_size, memory_size, config)?;
        let memory = Memory::new(memory_size, memory_vector_size);
        let read_head = ReadHead::new(memory_size, memory_vector_size);
        let write_head = WriteHead::new(memory_size, memory_vector_size, memory_vector_size);

        Ok(Self {
            controller,
            memory,
            read_head,
            write_head,
            memory_size,
            memory_vector_size,
            controller_output_size,
        })
    }

    pub async fn forward(&mut self, input: &Array1<f32>) -> Result<Array1<f32>, OmniXError> {
        log_info("Forward pass initiated...");
        let prev_read_weights = Array1::ones(self.memory_size) / self.memory_size as f32;
        let prev_read = self.read_head.read(&self.memory, &prev_read_weights)?;

        let (output, controller_output) = self.controller.forward(input)?;

        let read_weights = self.read_head.get_weights(
            &controller_output,
            &prev_read_weights,
            &self.memory.read(&prev_read_weights)?,
        )?;
        
        let write_weights = self.write_head.get_weights(
            &controller_output,
            &prev_read_weights,
            &self.memory.read(&prev_read_weights)?,
        )?;
        
        let erase_vector = self.write_head.get_erase_vector(&controller_output)?;
        let add_vector = self.write_head.get_add_vector(&controller_output)?;

        self.memory.write(&write_weights, &erase_vector, &add_vector)?;

        let read_vector = self.read_head.read(&self.memory, &read_weights)?;

        collect_metrics("Forward pass completed successfully.".to_string());
        Ok(output)
    }

    pub async fn reset(&mut self) {
        log_info("Resetting NTM state...");
        self.memory.clear();
        collect_metrics("NTM state has been reset.");
    }
}"#;

/// The text of `src/aproar/ntm/mod.rs`, the same for every project.
pub fn generate_ntm_mod_content() -> (text: String)
    ensures
        text@ == NTM_MOD_TEXT@,
{
    String::from_str(NTM_MOD_TEXT)
}

} // verus!
