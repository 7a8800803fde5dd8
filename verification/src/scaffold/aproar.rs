//! The storage-and-retrieval tree of a new project: compression, caches, context utilities.
use vstd::prelude::*;
use vstd::string::StringExecFns;

verus! {

/// What `src/aproar/compression/lz4_compression.rs` holds in a new project.
pub const LZ4_COMPRESSION_TEXT: &'static str = r#"use lz4::{block::compress, block::decompress, block::CompressionMode};
    use super::{CompressionStrategy, OmniXError};
    use anyhow::{Context, Result};
    use std::io::{Read, Write};
    
    use std::fs::File;
    
    
    pub struct LZ4Compression;
    
    impl CompressionStrategy for LZ4Compression {
        fn compress(&self, data: &[u8]) -> Result<Vec<u8>, OmniXError> {
            compress(data, Some(CompressionMode::HIGHCOMPRESSION(9)), false)
                .map_err(|e| OmniXError::OperationFailed {
                    operation: "LZ4 compression".to_string(),
                    details: e.to_string(),
                })
        }
    
        fn decompress(&self, compressed_data: &[u8]) -> Result<Vec<u8>, OmniXError> {
            decompress(compressed_data, None)
                .map_err(|e| OmniXError::OperationFailed {
                    operation: "LZ4 decompression".to_string(),
                    details: e.to_string(),
                })
        }
    }
    
    const BUFFER_SIZE: usize = 8192;
    
    /// Compresses data using LZ4 and writes to a file
    pub fn compress_data_with_lz4(input_path: &str, output_path: &str) -> Result<()> {
        let mut input_file = File::open(input_path)
            .with_context(|| format!("Failed to open input file: {}", input_path))?;
        let mut output_file = File::create(output_path)
            .with_context(|| format!("Failed to create output file: {}", output_path))?;
    
        let mut buffer = Vec::with_capacity(BUFFER_SIZE);
        let lz4_compressor = LZ4Compression;
    
        loop {
            buffer.clear();
            let bytes_read = input_file
                .by_ref()
                .take(BUFFER_SIZE as u64)
                .read_to_end(&mut buffer)
                .with_context(|| "Failed to read input file")?;
    
            if bytes_read == 0 {
                break;
            }
    
            let compressed_chunk = lz4_compressor.compress(&buffer)
                .with_context(|| "Failed to compress data chunk with LZ4")?;
    
            output_file
                .write_all(&compressed_chunk)
                .with_context(|| "Failed to write compressed data to file")?;
        }
    
        println!("Data compressed with LZ4 and written to {}", output_path);
        Ok(())
    }
    
    /// Decompresses LZ4 compressed data from a file
    pub fn decompress_data_with_lz4(input_path: &str, output_path: &str) -> Result<()> {
        let mut input_file = File::open(input_path)
            .with_context(|| format!("Failed to open input file: {}", input_path))?;
        let mut output_file = File::create(output_path)
            .with_context(|| format!("Failed to create output file: {}", output_path))?;
    
        let mut compressed_data = Vec::new();
        input_file
            .read_to_end(&mut compressed_data)
            .with_context(|| "Failed to read compressed file")?;
    
        let lz4_decompressor = LZ4Compression;
        let decompressed_data = lz4_decompressor.decompress(&compressed_data)
            .with_context(|| "Failed to decompress data with LZ4")?;
    
        output_file
            .write_all(&decompressed_data)
            .with_context(|| "Failed to write decompressed data to file")?;
    
        println!("Data decompressed with LZ4 and written to {}", output_path);
        Ok(())
    }
    
    #[cfg(test)]
    mod tests {
        use super::*;
        use tempfile::tempdir;
    
        #[test]
        fn test_lz4_compression_decompression() -> Result<()> {
            let dir = tempdir()?;
            let input_path = dir.path().join("input.txt");
            let compressed_path = dir.path().join("compressed.lz4");
            let decompressed_path = dir.path().join("decompressed.txt");
    
            let test_data = b"Hello, world! This is a test of LZ4 compression.";
            std::fs::write(&input_path, test_data)?;
    
            compress_data_with_lz4(
                input_path.to_str().unwrap(),
                compressed_path.to_str().unwrap(),
            )?;
            decompress_data_with_lz4(
                compressed_path.to_str().unwrap(),
                decompressed_path.to_str().unwrap(),
            )?;
    
            let decompressed_content = std::fs::read(decompressed_path)?;
            assert_eq!(decompressed_content, test_data);
    
            Ok(())
        }
    }
}
"#;

/// The text of `src/aproar/compression/lz4_compression.rs`, the same for every project.
pub fn generate_lz4_compression_content() -> (text: String)
    ensures
        text@ == LZ4_COMPRESSION_TEXT@,
{
    String::from_str(LZ4_COMPRESSION_TEXT)
}

/// What `src/aproar/compression/zstd_compression.rs` holds in a new project.
pub const ZSTD_COMPRESSION_TEXT: &'static str = r#"use super::{CompressionStrategy, OmniXError};
use crate::constants::ZSTD_COMPRESSION_LEVEL;
use zstd::stream::{encode_all, decode_all};
use anyhow::{Context, Result};
use std::io::{Read, Write};
use std::fs::File;

pub struct ZstdCompression;

impl CompressionStrategy for ZstdCompression {
    fn compress(&self, data: &[u8]) -> Result<Vec<u8>, OmniXError> {
        encode_all(data, ZSTD_COMPRESSION_LEVEL)
            .map_err(|e| OmniXError::OperationFailed {
                operation: "Zstd compression".to_string(),
                details: e.to_string(),
            })
    }

    fn decompress(&self, compressed_data: &[u8]) -> Result<Vec<u8>, OmniXError> {
        decode_all(compressed_data)
            .map_err(|e| OmniXError::OperationFailed {
                operation: "Zstd decompression".to_string(),
                details: e.to_string(),
            })
    }
}

/// Compresses data using Zstandard (Zstd) and writes to a file
pub fn compress_data_with_zstd(input_path: &str, output_path: &str) -> Result<()> {
    let mut input_file = File::open(input_path)
        .with_context(|| format!("Failed to open input file: {}", input_path))?;
    let mut buffer = Vec::new();
    input_file
        .read_to_end(&mut buffer)
        .with_context(|| format!("Failed to read input file: {}", input_path))?;

    let zstd_compressor = ZstdCompression;
    let compressed_data = zstd_compressor.compress(&buffer)
        .with_context(|| "Failed to compress data with Zstd")?;

    let mut output_file = File::create(output_path)
        .with_context(|| format!("Failed to create output file: {}", output_path))?;
    output_file
        .write_all(&compressed_data)
        .with_context(|| "Failed to write compressed data to file")?;

    println!("Data compressed with Zstd and written to {}", output_path);
    Ok(())
}

/// Decompresses Zstd compressed data from a file
pub fn decompress_data_with_zstd(input_path: &str, output_path: &str) -> Result<()> {
    let mut input_file = File::open(input_path)
        .with_context(|| format!("Failed to open input file: {}", input_path))?;
    let mut compressed_data = Vec::new();
    input_file
        .read_to_end(&mut compressed_data)
        .with_context(|| format!("Failed to read compressed file: {}", input_path))?;

    let zstd_decompressor = ZstdCompression;
    let decompressed_data = zstd_decompressor.decompress(&compressed_data)
        .with_context(|| "Failed to decompress data with Zstd")?;

    let mut output_file = File::create(output_path)
        .with_context(|| format!("Failed to create output file: {}", output_path))?;
    output_file
        .write_all(&decompressed_data)
        .with_context(|| "Failed to write decompressed data to file")?;

    println!("Data decompressed with Zstd and written to {}", output_path);
    Ok(())
}

#[cfg(test)]
mod tests {
    use super::*;
    use tempfile::tempdir;

    #[test]
    fn test_zstd_compression_decompression() -> Result<()> {
        let dir = tempdir()?;
        let input_path = dir.path().join("input.txt");
        let compressed_path = dir.path().join("compressed.zst");
        let decompressed_path = dir.path().join("decompressed.txt");

        let test_data = b"Hello, world! This is a test of Zstd compression.";
        std::fs::write(&input_path, test_data)?;

        compress_data_with_zstd(
            input_path.to_str().unwrap(),
            compressed_path.to_str().unwrap(),
        )?;
        decompress_data_with_zstd(
            compressed_path.to_str().unwrap(),
            decompressed_path.to_str().unwrap(),
        )?;

        let decompressed_content = std::fs::read(decompressed_path)?;
        assert_eq!(decompressed_content, test_data);

        Ok(())
    }
}
"#;

/// The text of `src/aproar/compression/zstd_compression.rs`, the same for every project.
pub fn generate_zstd_compression_content() -> (text: String)
    ensures
        text@ == ZSTD_COMPRESSION_TEXT@,
{
    String::from_str(ZSTD_COMPRESSION_TEXT)
}

/// What `src/aproar/compression/mod.rs` holds in a new project.
pub const COMPRESSION_MOD_TEXT: &'static str = r#"use crate::omnixtracker::{OmniXMetry, OmniXError};
use crate::constants::*;

mod lz4_compression;
mod zstd_compression;

pub use lz4_compression::{compress_data_with_lz4, decompress_data_with_lz4};
pub use zstd_compression::{compress_data_with_zstd, decompress_data_with_zstd};

pub trait CompressionStrategy {
    fn compress(&self, data: &[u8]) -> Result<Vec<u8>, OmniXError>;
    fn decompress(&self, compressed_data: &[u8]) -> Result<Vec<u8>, OmniXError>;
}

pub struct CompressionManager {
    metrics: OmniXMetry,
}

impl CompressionManager {
    pub fn new(metrics: OmniXMetry) -> Self {
        Self { metrics }
    }

    pub fn compress(&self, strategy: &dyn CompressionStrategy, data: &[u8]) -> Result<Vec<u8>, OmniXError> {
        let start_time = std::time::Instant::now();
        let result = strategy.compress(data);
        let duration = start_time.elapsed();

        self.metrics.record_histogram("compression.duration".to_string(), duration.as_secs_f64());
        self.metrics.increment_counter("compression.total".to_string(), 1);

        if result.is_ok() {
            self.metrics.increment_counter("compression.success".to_string(), 1);
        } else {
            self.metrics.increment_counter("compression.failure".to_string(), 1);
        }

        result
    }

    pub fn decompress(&self, strategy: &dyn CompressionStrategy, compressed_data: &[u8]) -> Result<Vec<u8>, OmniXError> {
        let start_time = std::time::Instant::now();
        let result = strategy.decompress(compressed_data);
        let duration = start_time.elapsed();

        self.metrics.record_histogram("decompression.duration".to_string(), duration.as_secs_f64());
        self.metrics.increment_counter("decompression.total".to_string(), 1);

        if result.is_ok() {
            self.metrics.increment_counter("decompression.success".to_string(), 1);
        } else {
            self.metrics.increment_counter("decompression.failure".to_string(), 1);
        }

        result
    }
}
"#;

/// The text of `src/aproar/compression/mod.rs`, the same for every project.
pub fn generate_compression_mod_content() -> (text: String)
    ensures
        text@ == COMPRESSION_MOD_TEXT@,
{
    String::from_str(COMPRESSION_MOD_TEXT)
}

/// What `src/aproar/utility/context_window.rs` holds in a new project.
pub const UTILITY_CONTEXT_WINDOW_TEXT: &'static str = r#"use crate::omnixtracker::{OmniXMetry, OmniXError};
use crate::constants::*;
use tokio::sync::RwLock;
use std::sync::Arc;
use chrono::{DateTime, Utc};
use serde::{Serialize, Deserialize};
use uuid::Uuid;

#[derive(Clone, Serialize, Deserialize)]
pub struct ContextChunk {
    pub id: Uuid,
    pub content: Vec<u8>,
    pub timestamp: DateTime<Utc>,
    pub relevance_score: f64,
}

pub struct ContextWindowManager {
    chunks: RwLock<Vec<ContextChunk>>,
    max_window_size: usize,
    metrics: OmniXMetry,
}

impl ContextWindowManager {
    pub fn new(max_window_size: usize, metrics: OmniXMetry) -> Self {
        Self {
            chunks: RwLock::new(Vec::with_capacity(max_window_size)),
            max_window_size,
            metrics,
        }
    }

    pub async fn add_chunk(&self, content: Vec<u8>) -> Result<(), OmniXError> {
        let mut chunks = self.chunks.write().await;
        if chunks.len() >= self.max_window_size {
            chunks.remove(0);
        }
        chunks.push(ContextChunk {
            id: Uuid::new_v4(),
            content,
            timestamp: Utc::now(),
            relevance_score: 1.0,
        });
        self.metrics.increment_counter("context_window.chunks_added".to_string(), 1);
        Ok(())
    }

    pub async fn get_relevant_chunks(&self, query: &str, limit: usize) -> Result<Vec<ContextChunk>, OmniXError> {
        let chunks = self.chunks.read().await;
        let mut relevant_chunks: Vec<ContextChunk> = chunks.iter()
            .filter(|chunk| self.is_relevant(chunk, query))
            .take(limit)
            .cloned()
            .collect();
        relevant_chunks.sort_by(|a, b| b.relevance_score.partial_cmp(&a.relevance_score).unwrap());
        self.metrics.increment_counter("context_window.chunks_retrieved".to_string(), relevant_chunks.len() as u64);
        Ok(relevant_chunks)
    }

    pub async fn get_all_chunks(&self) -> Result<Vec<ContextChunk>, OmniXError> {
        let chunks = self.chunks.read().await;
        Ok(chunks.clone())
    }

    fn is_relevant(&self, chunk: &ContextChunk, query: &str) -> bool {
        let query_bytes = query.as_bytes();
        chunk.content.windows(query_bytes.len()).any(|window| window == query_bytes)
    }

    pub async fn update_relevance(&self, chunk_id: Uuid, new_score: f64) -> Result<(), OmniXError> {
        let mut chunks = self.chunks.write().await;
        if let Some(chunk) = chunks.iter_mut().find(|c| c.id == chunk_id) {
            chunk.relevance_score = new_score;
            self.metrics.increment_counter("context_window.relevance_updates".to_string(), 1);
            Ok(())
        } else {
            Err(OmniXError::NotFound("Chunk not found".to_string()))
        }
    }
}
"#;

/// The text of `src/aproar/utility/context_window.rs`, the same for every project.
pub fn generate_utility_context_window_content() -> (text: String)
    ensures
        text@ == UTILITY_CONTEXT_WINDOW_TEXT@,
{
    String::from_str(UTILITY_CONTEXT_WINDOW_TEXT)
}

/// What `src/aproar/utility/memory_consolidation.rs` holds in a new project.
pub const UTILITY_MEMORY_CONSOLIDATION_TEXT: &'static str = r#"use crate::omnixtracker::{OmniXMetry, OmniXError};
use crate::aproar::memory::context_window::ContextChunk;
use crate::constants::*;
use std::sync::Arc;
use tokio::sync::Mutex;

pub trait ConsolidationStrategy: Send + Sync {
    fn consolidate(&self, chunks: &[ContextChunk]) -> Vec<ContextChunk>;
}

pub struct SimpleAveragingStrategy;

impl ConsolidationStrategy for SimpleAveragingStrategy {
    fn consolidate(&self, chunks: &[ContextChunk]) -> Vec<ContextChunk> {
        if chunks.is_empty() {
            return Vec::new();
        }

        let mut consolidated_content = Vec::new();
        let chunk_size = chunks[0].content.len();

        for i in 0..chunk_size {
            let sum: u32 = chunks.iter().map(|chunk| chunk.content[i] as u32).sum();
            let average = (sum / chunks.len() as u32) as u8;
            consolidated_content.push(average);
        }

        vec![ContextChunk {
            id: uuid::Uuid::new_v4(),
            content: consolidated_content,
            timestamp: chrono::Utc::now(),
            relevance_score: chunks.iter().map(|chunk| chunk.relevance_score).sum::<f64>() / chunks.len() as f64,
        }]
    }
}

pub struct MemoryConsolidator {
    strategy: Mutex<Box<dyn ConsolidationStrategy>>,
    metrics: OmniXMetry,
}

impl MemoryConsolidator {
    pub fn new(strategy: Box<dyn ConsolidationStrategy>, metrics: OmniXMetry) -> Self {
        Self {
            strategy: Mutex::new(strategy),
            metrics,
        }
    }

    pub async fn consolidate(&self, chunks: &[ContextChunk]) -> Result<Vec<ContextChunk>, OmniXError> {
        let start_time = std::time::Instant::now();
        let strategy = self.strategy.lock().await;
        let consolidated = strategy.consolidate(chunks);
        let duration = start_time.elapsed();
        self.metrics.record_histogram("memory_consolidation.duration".to_string(), duration.as_secs_f64());
        self.metrics.increment_counter("memory_consolidation.chunks_consolidated".to_string(), chunks.len() as u64);
        Ok(consolidated)
    }

    pub async fn set_strategy(&self, new_strategy: Box<dyn ConsolidationStrategy>) {
        let mut strategy = self.strategy.lock().await;
        *strategy = new_strategy;
    }
}"#;

/// The text of `src/aproar/utility/memory_consolidation.rs`, the same for every project.
pub fn generate_utility_memory_consolidation_content() -> (text: String)
    ensures
        text@ == UTILITY_MEMORY_CONSOLIDATION_TEXT@,
{
    String::from_str(UTILITY_MEMORY_CONSOLIDATION_TEXT)
}

/// What `src/aproar/utility/mod.rs` holds in a new project.
pub const UTILITY_MOD_TEXT: &'static str = r#"// src/aproar/utility/mod.
    
    mod context_window;
    mod memory_consolidation;
    
    pub use context_window::{ContextWindowManager, ContextChunk};
    pub use memory_consolidation::MemoryConsolidator; 
}
    "#;

/// The text of `src/aproar/utility/mod.rs`, the same for every project.
pub fn generate_utility_mod_content() -> (text: String)
    ensures
        text@ == UTILITY_MOD_TEXT@,
{
    String::from_str(UTILITY_MOD_TEXT)
}

/// What `src/aproar/retrieval/gradient_lru_cache.rs` holds in a new project.
pub const GRADIENT_LRU_CACHE_TEXT: &'static str = r#"// src/gradient__lru_cache.rs
use std::collections::{HashMap, VecDeque};
use tokio::sync::Mutex;
use tch::Tensor;

/// Represents a thread-safe, LRU cache for storing gradients.
pub struct GradientCache {
    capacity: usize,
    cache: Mutex<GradientLRUCache>,
}

/// Internal structure to manage the LRU cache.
struct GradientLRUCache {
    map: HashMap<String, Tensor>,
    order: VecDeque<String>,
}

impl GradientCache {
    /// Initializes a new GradientCache with the specified capacity.
    ///
    /// # Arguments
    ///
    /// * `capacity` - The maximum number of gradients to store in the cache.
    pub fn new(capacity: usize) -> Self {
        Self {
            capacity,
            cache: Mutex::new(GradientLRUCache {
                map: HashMap::new(),
                order: VecDeque::new(),
            }),
        }
    }

    /// Retrieves a gradient from the cache based on the provided key.
    ///
    /// If the gradient is found, it is moved to the front of the LRU order.
    ///
    /// # Arguments
    ///
    /// * `key` - The unique identifier for the gradient.
    ///
    /// # Returns
    ///
    /// * `Option<Tensor>` - The gradient tensor if found, otherwise `None`.
    pub async fn get(&self, key: &str) -> Option<Tensor> {
        let mut cache = self.cache.lock().await;
        if let Some(tensor) = cache.map.get(key) {
            // Move the accessed key to the front (most recently used)
            cache.order.retain(|k| k != key);
            cache.order.push_front(key.to_string());
            Some(tensor.shallow_clone())
        } else {
            None
        }
    }

    /// Inserts a gradient into the cache with the specified key.
    ///
    /// If the cache exceeds its capacity, the least recently used gradient is evicted.
    ///
    /// # Arguments
    ///
    /// * `key` - The unique identifier for the gradient.
    /// * `gradient` - The gradient tensor to store.
    pub async fn insert(&self, key: String, gradient: Tensor) {
        let mut cache = self.cache.lock().await;
        if cache.map.contains_key(&key) {
            // Update the existing gradient and move it to the front
            cache.map.insert(key.clone(), gradient);
            cache.order.retain(|k| k != &key);
            cache.order.push_front(key);
        } else {
            // Insert the new gradient
            if cache.map.len() == self.capacity {
                // Evict the least recently used gradient
                if let Some(lru_key) = cache.order.pop_back() {
                    cache.map.remove(&lru_key);
                }
            }
            cache.map.insert(key.clone(), gradient);
            cache.order.push_front(key);
        }
    }

    /// Clears all gradients from the cache.
    pub async fn clear(&self) {
        let mut cache = self.cache.lock().await;
        cache.map.clear();
        cache.order.clear();
    }

    /// Returns the current number of gradients stored in the cache.
    pub async fn len(&self) -> usize {
        let cache = self.cache.lock().await;
        cache.map.len()
    }

    /// Checks if the cache is empty.
    pub async fn is_empty(&self) -> bool {
        let cache = self.cache.lock().await;
        cache.map.is_empty()
    }

    /// Checks if the cache contains a specific key.
    pub async fn contains_key(&self, key: &str) -> bool {
        let cache = self.cache.lock().await;
        cache.map.contains_key(key)
    }

    /// Removes a gradient from the cache by its key.
    pub async fn remove(&self, key: &str) -> Option<Tensor> {
        let mut cache = self.cache.lock().await;
        if let Some(tensor) = cache.map.remove(key) {
            cache.order.retain(|k| k != key);
            Some(tensor)
        } else {
            None
        }
    }

    /// Returns all keys in the cache.
    pub async fn keys(&self) -> Vec<String> {
        let cache = self.cache.lock().await;
        cache.order.iter().cloned().collect()
    }

    /// Returns all values in the cache.
    pub async fn values(&self) -> Vec<Tensor> {
        let cache = self.cache.lock().await;
        cache.map.values().cloned().collect()
    }

    /// Returns the capacity of the cache.
    pub async fn capacity(&self) -> usize {
        self.capacity
    }

    /// Resizes the cache to a new capacity.
    pub async fn resize(&mut self, new_capacity: usize) {
        let mut cache = self.cache.lock().await;
        while cache.map.len() > new_capacity {
            if let Some(lru_key) = cache.order.pop_back() {
                cache.map.remove(&lru_key);
            }
        }
        self.capacity = new_capacity;
    }

    /// Updates a gradient in the cache using a provided function.
    pub async fn update(&self, key: &str, update_fn: impl FnOnce(&mut Tensor)) -> bool {
        let mut cache = self.cache.lock().await;
        if let Some(tensor) = cache.map.get_mut(key) {
            update_fn(tensor);
            cache.order.retain(|k| k != key);
            cache.order.push_front(key.to_string());
            true
        } else {
            false
        }
    }
}

#[cfg(test)]
mod tests {
    use super::*;
    use tch::Tensor;

    #[tokio::test]
    async fn test_len_empty_cache() {
        let cache = GradientCache::new(10);
        assert_eq!(cache.len().await, 0);
    }

    #[tokio::test]
    async fn test_len_non_empty_cache() {
        let cache = GradientCache::new(10);
        cache.insert("key1".to_string(), Tensor::from_slice(&[1.0, 2.0, 3.0])).await;
        cache.insert("key2".to_string(), Tensor::from_slice(&[4.0, 5.0, 6.0])).await;
        assert_eq!(cache.len().await, 2);
    }

    #[tokio::test]
    async fn test_len_after_insert() {
        let cache = GradientCache::new(10);
        cache.insert("key1".to_string(), Tensor::from_slice(&[1.0, 2.0, 3.0])).await;
        assert_eq!(cache.len().await, 1);
        cache.insert("key2".to_string(), Tensor::from_slice(&[4.0, 5.0, 6.0])).await;
        assert_eq!(cache.len().await, 2);
    }

    #[tokio::test]
    async fn test_len_after_clear() {
        let cache = GradientCache::new(10);
        cache.insert("key1".to_string(), Tensor::from_slice(&[1.0, 2.0, 3.0])).await;
        cache.insert("key2".to_string(), Tensor::from_slice(&[4.0, 5.0, 6.0])).await;
        cache.clear().await;
        assert_eq!(cache.len().await, 0);
    }

    #[tokio::test]
    async fn test_contains_key() {
        let cache = GradientCache::new(10);
        cache.insert("key1".to_string(), Tensor::from_slice(&[1.0, 2.0, 3.0])).await;
        assert!(cache.contains_key("key1").await);
        assert!(!cache.contains_key("key2").await);
    }

    #[tokio::test]
    async fn test_remove() {
        let cache = GradientCache::new(10);
        cache.insert("key1".to_string(), Tensor::from_slice(&[1.0, 2.0, 3.0])).await;
        assert!(cache.remove("key1").await.is_some());
        assert!(cache.remove("key2").await.is_none());
        assert_eq!(cache.len().await, 0);
    }

    #[tokio::test]
    async fn test_keys() {
        let cache = GradientCache::new(10);
        cache.insert("key1".to_string(), Tensor::from_slice(&[1.0, 2.0, 3.0])).await;
        cache.insert("key2".to_string(), Tensor::from_slice(&[4.0, 5.0, 6.0])).await;
        let keys = cache.keys().await;
        assert_eq!(keys.len(), 2);
        assert!(keys.contains(&"key1".to_string()));
        assert!(keys.contains(&"key2".to_string()));
    }

    #[tokio::test]
    async fn test_resize() {
        let mut cache = GradientCache::new(3);
        cache.insert("key1".to_string(), Tensor::from_slice(&[1.0])).await;
        cache.insert("key2".to_string(), Tensor::from_slice(&[2.0])).await;
        cache.insert("key3".to_string(), Tensor::from_slice(&[3.0])).await;
        cache.resize(2).await;
        assert_eq!(cache.len().await, 2);
        assert_eq!(cache.capacity().await, 2);
    }

    #[tokio::test]
    async fn test_update() {
        let cache = GradientCache::new(10);
        cache.insert("key1".to_string(), Tensor::from_slice(&[1.0, 2.0, 3.0])).await;
        assert!(cache.update("key1", |tensor| {
            *tensor *= 2.0;
        }).await);
        let updated_tensor = cache.get("key1").await.unwrap();
        assert_eq!(updated_tensor.double_value(&[0]), 2.0);
        assert_eq!(updated_tensor.double_value(&[1]), 4.0);
        assert_eq!(updated_tensor.double_value(&[2]), 6.0);
    }
}
"#;

/// The text of `src/aproar/retrieval/gradient_lru_cache.rs`, the same for every project.
pub fn generate_gradient_lru_cache_content() -> (text: String)
    ensures
        text@ == GRADIENT_LRU_CACHE_TEXT@,
{
    String::from_str(GRADIENT_LRU_CACHE_TEXT)
}

/// What `src/aproar/retrieval/redis_cache.rs` holds in a new project.
pub const REDIS_CACHE_TEXT: &'static str = r#"use crate::omnixtracker::{OmniXError, OmniXMetry};
use super::RetrievalCache;
use redis::{AsyncCommands, Client};
use anyhow::{Context, Result};
use tokio::runtime::Runtime;
use parking_lot::RwLock;
use std::sync::Arc;


pub struct RedisCache {
    client: Client,
    runtime: Arc<Runtime>,
    metrics: OmniXMetry,
}

impl RedisCache {
    pub fn new(redis_url: &str, metrics: OmniXMetry) -> Result<Self, OmniXError> {
        let client = Client::open(redis_url)
            .with_context(|| "Failed to create Redis client")
            .map_err(|e| OmniXError::NetworkError(e.to_string()))?;

        let runtime = Runtime::new()
            .with_context(|| "Failed to create Tokio runtime")
            .map_err(|e| OmniXError::OperationFailed {
                operation: "Creating Tokio runtime".to_string(),
                details: e.to_string(),
            })?;

        Ok(Self {
            client,
            runtime: Arc::new(runtime),
            metrics,
        })
    }
}

impl RetrievalCache for RedisCache {
    fn get(&self, key: &str) -> Result<Option<Vec<u8>>, OmniXError> {
        let client = self.client.clone();
        let key = key.to_string();
        let metrics = self.metrics.clone();

        self.runtime.block_on(async move {
            let start_time = std::time::Instant::now();
            let mut con = client
                .get_async_connection()
                .await
                .```rust
                .with_context(|| "Failed to connect to Redis")?;

            let result: Option<Vec<u8>> = con.get(&key).await
                .with_context(|| format!("Failed to get value for key: {}", key))?;

            let duration = start_time.elapsed();
            metrics.record_histogram("redis.get.duration".to_string(), duration.as_secs_f64());
            metrics.increment_counter("redis.get.total".to_string(), 1);

            if result.is_some() {
                metrics.increment_counter("redis.get.success".to_string(), 1);
            } else {
                metrics.increment_counter("redis.get.failure".to_string(), 1);
            }

            Ok(result)
        })
    }

    fn set(&self, key: &str, value: &[u8]) -> Result<(), OmniXError> {
        let client = self.client.clone();
        let key = key.to_string();
        let value = value.to_vec();
        let metrics = self.metrics.clone();

        self.runtime.block_on(async move {
            let start_time = std::time::Instant::now();
            let mut con = client
                .get_async_connection()
                .await
                .with_context(|| "Failed to connect to Redis")?;

            con.set(&key, value).await
                .with_context(|| format!("Failed to set value for key: {}", key))?;

            let duration = start_time.elapsed();
            metrics.record_histogram("redis.set.duration".to_string(), duration.as_secs_f64());
            metrics.increment_counter("redis.set.total".to_string(), 1);
            metrics.increment_counter("redis.set.success".to_string(), 1);

            Ok(())
        })
    }
}"#;

/// The text of `src/aproar/retrieval/redis_cache.rs`, the same for every project.
pub fn generate_redis_cache_content() -> (text: String)
    ensures
        text@ == REDIS_CACHE_TEXT@,
{
    String::from_str(REDIS_CACHE_TEXT)
}

/// What `src/aproar/retrieval/mod.rs` holds in a new project.
pub const RETRIEVAL_MOD_TEXT: &'static str = r#"mod redis_cache;
mod gradient_lru_cache;

use crate::omnixtracker::OmniXError;
use anyhow::Result;
use async_trait::async_trait;

pub use gradient_lru_cache::{GradientCache, GradientLRUCache};
pub use redis_cache::RedisCache;


#[async_trait]
pub trait RetrievalCache: Send + Sync {
    fn get(&self, key: &str) -> Result<Option<Vec<u8>>, OmniXError>;
    fn set(&self, key: &str, value: &[u8]) -> Result<(), OmniXError>;
}"#;

/// The text of `src/aproar/retrieval/mod.rs`, the same for every project.
pub fn generate_retrieval_mod_content() -> (text: String)
    ensures
        text@ == RETRIEVAL_MOD_TEXT@,
{
    String::from_str(RETRIEVAL_MOD_TEXT)
}

/// Stretch 1 of 2 of what `src/aproar/mod.rs` holds in a new project.
pub const APROAR_MOD_TEXT_1: &'static str = r#"use crate::aproar::compression::{CompressionManager, CompressionStrategy, LZ4Compression, ZstdCompression};
use crate::aproar::storage::{HDF5Storage, ParquetStorage, TileDBStorage, StorageBackend};
use crate::aproar::retrieval::{RedisCache, RocksDBPersistence, RetrievalCache};
use crate::omnixtracker::{OmniXMetry, OmniXError};
use crate::constants::*;
use uuid::Uuid;
use tokio::task;
use std::sync::Arc;
use dashmap::DashMap;
use rayon::prelude::*;
use std::path::PathBuf;
use std::time::Instant;
use parking_lot::RwLock;
use rand::seq::SliceRandom;
use async_trait::async_trait;
use futures::future::join_all;
use std::collections::HashMap;
use tokio::time::{Duration, interval};
use std::sync::atomic::{AtomicUsize, Ordering};

mod compression;
mod memory;
mod ntm;
mod retrieval;
mod storage;

#[async_trait]
pub trait OmniXurge: Send + Sync {
    async fn parallelize_task<T: Send + Sync + 'static>(&self, task: T) -> Result<Uuid, OmniXError>;
    async fn get_parallelized_task_status(&self, task_id: Uuid) -> Option<TaskMetadata>;
    async fn get_resource_utilization(&self) -> Result<ResourceMonitor, OmniXError>;
    async fn tune_hyperparameters<H: Hyperparameters + Send + Sync>(&self, config: TunerConfig<H>) -> Result<H, OmniXError>;
    async fn accelerate(&self) -> Result<(), OmniXError>;
    async fn decelerate(&self) -> Result<(), OmniXError>;
    async fn collect_metrics(&self) -> Result<Metrics, OmniXError>;
    async fn shutdown(&self) -> Result<(), OmniXError>;
    async fn submit_task_with_progress<T, F>(&self, task: T, progress_callback: F) -> Result<Uuid, OmniXError>
    where
        T: TaskMaster + Send + 'static,
        F: Fn(TaskProgress) + Send + Sync + 'static;
    async fn recover_and_resume_tasks(&self) -> Result<(), OmniXError>;
}

pub struct AproarManager {
    ntm: Arc<RwLock<NTM>>,
    context_window_manager: Arc<ContextWindowManager>,
    memory_consolidator: Arc<MemoryConsolidator>,
    compression_manager: CompressionManager,
    storage_backends: Vec<Arc<dyn StorageBackend>>,
    retrieval_caches: Vec<Arc<dyn RetrievalCache>>,
    metrics: OmniXMetry,
    tasks: Arc<DashMap<Uuid, TaskMetadata>>,
    resource_monitor: Arc<RwLock<ResourceMonitor>>,
    max_concurrent_tasks: usize,
    current_task_count: Arc<AtomicUsize>,
}

impl AproarManager {
    pub fn new(metrics: OmniXMetry) -> Result<Self, OmniXError> {
        // Initialize NTM
        let ntm_config = NTMConfig {
            input_size: NTM_INPUT_SIZE,
            output_size: NTM_OUTPUT_SIZE,
            memory_size: NTM_MEMORY_SIZE,
            memory_vector_size: NTM_MEMORY_VECTOR_SIZE,
            controller_size: NTM_CONTROLLER_SIZE,
        };

        let ntm = NTM::new(
            NTM_INPUT_SIZE,
            NTM_OUTPUT_SIZE,
            NTM_MEMORY_SIZE,
            NTM_MEMORY_VECTOR_SIZE,
            NTM_CONTROLLER_SIZE,
            &ntm_config,
        ).map_err(|e| OmniXError::InitializationError(format!("Failed to initialize NTM: {}", e)))?;

        // Initialize context window manager and memory consolidator
        let context_window_manager = Arc::new(ContextWindowManager::new(CONTEXT_WINDOW_SIZE, metrics.clone()));
        let memory_consolidator = Arc::new(MemoryConsolidator::new(metrics.clone()));

        // Initialize compression manager
        let compression_manager = CompressionManager::new(metrics.clone());

        // Initialize storage backends
        let storage_backends: Vec<Arc<dyn StorageBackend>> = vec![
            Arc::new(HDF5Storage::new(PathBuf::from("data.h5"), metrics.clone())),
            Arc::new(ParquetStorage::new(PathBuf::from("data.parquet"))),
            Arc::new(TileDBStorage::new("tiledb_array")),
        ];

        // Initialize retrieval caches
        let retrieval_caches: Vec<Arc<dyn RetrievalCache>> = vec![
            Arc::new(RedisCache::new("redis://127.0.0.1/", metrics.clone()).map_err(OmniXError::from)?),
            Arc::new(RocksDBPersistence::new(PathBuf::from("rocksdb_data"), metrics.clone()).map_err(OmniXError::from)?),
        ];

        let manager = AproarManager {
            ntm: Arc::new(RwLock::new(ntm)),
            context_window_manager,
            memory_consolidator,
            compression_manager,
            storage_backends,
            retrieval_caches,
            metrics: metrics.clone(),
            tasks: Arc::new(DashMap::new()),
            resource_monitor: Arc::new(RwLock::new(ResourceMonitor::default())),
            max_concurrent_tasks: MAX_CONCURRENT_TASKS,
            current_task_count: Arc::new(AtomicUsize::new(0)),
        };

        manager.start_resource_monitoring();
        manager.start_metrics_collection();
        Ok(manager)
    }

    fn start_resource_monitoring(&self) {
        let resource_monitor = self.resource_monitor.clone();
        tokio::spawn(async move {
            let mut interval = interval(Duration::from_millis(RESOURCE_MONITOR_INTERVAL_MS));
            loop {
                interval.tick().await;
                let mut monitor = resource_monitor.write();
                monitor.update();
            }
        });
    }

    fn start_metrics_collection(&self) {
        let metrics = self.metrics.clone();
        let tasks = self.tasks.clone();
        tokio::spawn(async move {
            let mut interval = interval(Duration::from_millis(METRICS_UPDATE_INTERVAL_MS));
            loop {
                interval.tick().await;
                let completed_tasks = tasks.iter().filter(|entry| entry.value().status == TaskStatus::Completed).count();
                metrics.update_gauge("tasks.completed".to_string(), completed_tasks as f64);
                metrics.update_gauge("tasks.in_progress".to_string(), (tasks.len() - completed_tasks) as f64);
            }
        });
    }

    pub async fn process_with_ntm(&self, input: &[f32]) -> Result<Vec<f32>, OmniXError> {
        let input_array = Array1::from_vec(input.to_vec());
        let mut ntm = self.ntm.write();
        let output = ntm.forward(&input_array)
            .map_err(|e| OmniXError::ProcessingError(format!("NTM forward pass failed: {}", e)))?;
        Ok(output.to_vec())
    }

    pub async fn reset_ntm(&self) -> Result<(), OmniXError> {
        let mut ntm = self.ntm.write();
        ntm.reset();
        Ok(())
    }

    pub async fn expand_context_window(&self, data: &[u8]) -> Result<(), OmniXError> {
        let data_f32: Vec<f32> = data.iter().map(|&x| x as f32 / 255.0).collect();
        let processed = self.process_with_ntm(&data_f32).await?;
        self.context_window_manager.add_chunk(processed).await
    }

    pub async fn retrieve_context(&self, query: &str, limit: usize) -> Result<Vec<ContextChunk>, OmniXError> {
        let query_f32: Vec<f32> = query.bytes().map(|x| x as f32 / 255.0).collect();
        let processed_query = self.process_with_ntm(&query_f32).await?;
        self.context_window_manager.get_relevant_chunks(&processed_query, limit).await
    }

    pub async fn consolidate_memory(&self) -> Result<(), OmniXError> {
        let chunks = self.context_window_manager.get_all_chunks().await?;
        let consolidated = self.memory_consolidator.consolidate(&chunks).await?;
        
        for chunk in consolidated {
            let processed = self.process_with_ntm(&chunk.content).await?;
            self.context_window_manager.add_chunk(processed).await?;
        }
        
        self.reset_ntm().await?;
        
        Ok(())
    }

    pub fn select_storage_backend(&self, usage_frequency: usize) -> Arc<dyn StorageBackend> {
        if usage_frequency > HIGH_FREQUENCY_THRESHOLD {
            self.storage_backends[0].clone()
        } else if usage_frequency > MEDIUM_FREQUENCY_THRESHOLD {
            self.storage_backends[1].clone()
        } else {
            self.storage_backends[2].clone()
        }
    }

    pub fn select_compression_strategy(&self, data_size: usize) -> Box<dyn CompressionStrategy> {
        if data_size > MAX_DATA_SIZE {
            Box::new(ZstdCompression)
        } else {
            Box::new(LZ4Compression)
        }
    }

    pub async fn store_data(&self, key: &str, data: &[u8], usage_frequency: usize) -> Result<(), OmniXError> {
        let compression_strategy = self.select_compression_strategy(data.len());
        let compressed_data = self.compression_manager.compress(compression_strategy.as_ref(), data)?;
        let storage_backend = self.select_storage_backend(usage_frequency);
        storage_backend.store(key, &compressed_data)?;

        let cache_futures: Vec<_> = self.retrieval_caches.iter().map(|cache| {
            let cache_key = key.to_string();
            let cache_data = compressed_data.clone();
            cache.set(&cache_key, &cache_data)
        }).collect();

        for result in join_all(cache_futures).await {
            if let Err(e) = result {
                self.metrics.increment_counter("cache.set.failure".to_string(), 1);
                e.log();
            }
        }

        Ok(())
    }

    pub async fn retrieve_data(&self, key: &str, usage_frequency: usize) -> Result<Vec<u8>, OmniXError> {
        for cache in &self.retrieval_caches {
            match cache.get(key) {
                Ok(Some(cached_data)) => {
                    let compression_strategy = self.select_compression_strategy(cached_data.len());
                    let decompressed_data = self.compression_manager.decompress(compression_strategy.as_ref(), &cached_data)?;
                    self.metrics.increment_counter("cache.hit".to_string(), 1);
                    return Ok(decompressed_data);
                }
                Ok(None) => continue,
                Err(e) => {
                    self.metrics.increment_counter("cache.get.failure".to_string(), 1);
                    e.log();
                }
            }
        }

        self.metrics.increment_counter("cache.miss".to_string(), 1);
        let storage_backend = self.select_storage_backend(usage_frequency);
        let stored_data = storage_backend.retrieve(key)?;
        let compression_strategy = self.select_compression_strategy(stored_data.len());
        let decompressed_data = self.compression_manager.decompress(compression_strategy.as_ref(), &stored_data)?;

        let cache_futures: Vec<_> = self.retrieval_caches.iter().map(|cache| {
            let cache_key = key.to_string();
            let cache_data = stored_data.clone();
            cache.set(&cache_key, &cache_data)
        }).collect();

        for result in join_all(cache_futures).await {
            if let Err(e) = result {
                self.metrics.increment_counter("cache.set.failure".to_string(), 1);
                e.log();
            }
        }

        Ok(decompressed_data)
    }
}

#[async_trait]
impl OmniXurge for AproarManager {
    async fn parallelize_task<T: Send + Sync + 'static>(&self, task: T) -> Result<Uuid, OmniXError> {
        if self.current_task_count.load(Ordering::SeqCst) >= self.max_concurrent_tasks {
            return Err(OmniXError::OperationFailed {
                operation: "Task scheduling".to_string(),
                details: "Max concurrent tasks limit reached".to_string(),
            });
        }

        let task_id = Uuid::new_v4();
        let tasks_clone = self.tasks.clone();
        let metrics_clone = self.metrics.clone();
        let current_task_count = self.current_task_count.clone();

        let task_metadata = TaskMetadata {
            progress: 0.0,
            status: TaskStatus::Scheduled,
        };
        tasks_clone.insert(task_id, task_metadata);
        current_task_count.fetch_add(1, Ordering::SeqCst);

        task::spawn(async move {
            let start_time = Instant::now();
            let result = task.execute().await;
            let execution_time = start_time.elapsed();

"#;

/// Stretch 2 of 2 of what `src/aproar/mod.rs` holds in a new project.
pub const APROAR_MOD_TEXT_2: &'static str = r#"            if let Some(mut entry) = tasks_clone.get_mut(&task_id) {
                match result {
                    Ok(_) => {
                        entry.progress = 100.0;
                        entry.status = TaskStatus::Completed;
                        metrics_clone.increment_counter("tasks.completed".to_string(), 1);
                        metrics_clone.record_histogram("task.execution_time".to_string(), execution_time.as_secs_f64());
                    }
                    Err(e) => {
                        entry.status = TaskStatus::Failed;
                        metrics_clone.increment_counter("tasks.failed".to_string(), 1);
                        e.log();
                    }
                }
            }
            current_task_count.fetch_sub(1, Ordering::SeqCst);
        });

        Ok(task_id)
    }

    async fn get_parallelized_task_status(&self, task_id: Uuid) -> Option<TaskMetadata> {
        self.tasks.get(&task_id).map(|entry| entry.value().clone())
    }

    async fn get_resource_utilization(&self) -> Result<ResourceMonitor, OmniXError> {
        Ok(self.resource_monitor.read().clone())
    }

    async fn tune_hyperparameters<H: Hyperparameters + Send + Sync>(&self, config: TunerConfig<H>) -> Result<H, OmniXError> {
        let mut best_params = config.initial_params;
        let mut best_score = f64::MIN;

        for _ in 0..config.max_iterations {
            let mut current_params = best_params.clone();
            current_params.adjust();
            let score = self.evaluate_hyperparameters(&current_params).await?;

            if score > best_score {
                best_score = score;
                best_params = current_params;
            }

            self.metrics.record_histogram("hyperparameter_tuning.score".to_string(), score);
        }

        self.metrics.update_gauge("hyperparameter_tuning.best_score".to_string(), best_score);
        Ok(best_params)
    }

    async fn accelerate(&self) -> Result<(), OmniXError> {
        let mut resource_monitor = self.resource_monitor.write();
        let current_cpu_usage = resource_monitor.cpu_usage;
        let current_memory_usage = resource_monitor.memory_usage;

        let new_cpu_allocation = (current_cpu_usage * 1.2).min(100.0);
        let new_memory_allocation = (current_memory_usage * 1.2).min(100.0);

        resource_monitor.cpu_usage = new_cpu_allocation;
        resource_monitor.memory_usage = new_memory_allocation;

        self.max_concurrent_tasks = (self.max_concurrent_tasks as f64 * 1.2) as usize;

        self.metrics.increment_counter("resource.accelerate".to_string(), 1);
        self.metrics.update_gauge("resource.cpu_allocation".to_string(), new_cpu_allocation);
        self.metrics.update_gauge("resource.memory_allocation".to_string(), new_memory_allocation);
        self.metrics.update_gauge("resource.max_concurrent_tasks".to_string(), self.max_concurrent_tasks as f64);

        Ok(())
    }

    async fn decelerate(&self) -> Result<(), OmniXError> {
        self.metrics.increment_counter("resource.decelerate".to_string(), 1);
        Ok(())
    }

    async fn collect_metrics(&self) -> Result<Metrics, OmniXError> {
        let data_processed = self.metrics.get_counter_value("data.processed".to_string()) as usize;
        let tasks_completed = self.metrics.get_counter_value("tasks.completed".to_string()) as usize;
        Ok(Metrics {
            data_processed,
            tasks_completed,
        })
    }

    async fn shutdown(&self) -> Result<(), OmniXError> {
        while self.current_task_count.load(Ordering::SeqCst) > 0 {
            tokio::time::sleep(Duration::from_millis(100)).await;
        }
        self.metrics.increment_counter("system.shutdown".to_string(), 1);
        Ok(())
    }

    async fn submit_task_with_progress<T, F>(&self, task: T, progress_callback: F) -> Result<Uuid, OmniXError>
    where
        T: TaskMaster + Send + 'static,
        F: Fn(TaskProgress) + Send + Sync + 'static,
    {
        if self.current_task_count.load(Ordering::SeqCst) >= self.max_concurrent_tasks {
            return Err(OmniXError::OperationFailed {
                operation: "Task scheduling".to_string(),
                details: "Max concurrent tasks limit reached".to_string(),
            });
        }

        let task_id = Uuid::new_v4();
        let tasks_clone = self.tasks.clone();
        let metrics_clone = self.metrics.clone();
        let progress_callback = Arc::new(progress_callback);
        let current_task_count = self.current_task_count.clone();

        let task_metadata = TaskMetadata {
            progress: 0.0,
            status: TaskStatus::Scheduled,
        };
        tasks_clone.insert(task_id, task_metadata);
        current_task_count.fetch_add(1, Ordering::SeqCst);

        task::spawn(async move {
            let start_time = Instant::now();
            let result = task.execute_with_progress(task_id, progress_callback.clone()).await;
            let execution_time = start_time.elapsed();

            if let Some(mut entry) = tasks_clone.get_mut(&task_id) {
                match result {
                    Ok(_) => {
                        entry.progress = 100.0;
                        entry.status = TaskStatus::Completed;
                        metrics_clone.increment_counter("tasks.completed".to_string(), 1);
                        metrics_clone.record_histogram("task.execution_time".to_string(), execution_time.as_secs_f64());
                    }
                    Err(e) => {
                        entry.status = TaskStatus::Failed;
                        metrics_clone.increment_counter("tasks.failed".to_string(), 1);
                        e.log();
                    }
                }
            }

            current_task_count.fetch_sub(1, Ordering::SeqCst);
        });

        Ok(task_id)
    }

    async fn recover_and_resume_tasks(&self) -> Result<(), OmniXError> {
        for task_entry in self.tasks.iter() {
            let task_id = task_entry.key().clone();
            let task_metadata = task_entry.value().clone();

            if task_metadata.status == TaskStatus::Scheduled || task_metadata.status == TaskStatus::Running {
                log::warn!("Recovering task with ID: {}", task_id);
            }
        }

        self.metrics.increment_counter("tasks.recovered".to_string(), 1);
        Ok(())
    }
}"#;

/// What `src/aproar/mod.rs` holds in a new project.
pub open spec fn aproar_mod_text() -> Seq<char> {
    APROAR_MOD_TEXT_1@ + APROAR_MOD_TEXT_2@
}

/// The text of `src/aproar/mod.rs`, the same for every project.
pub fn generate_aproar_mod_content() -> (text: String)
    ensures
        text@ == aproar_mod_text(),
{
    let mut text = String::from_str(APROAR_MOD_TEXT_1);
    text.append(APROAR_MOD_TEXT_2);
    text
}

} // verus!
