//! The storage back ends of a new project.
use vstd::prelude::*;
use vstd::string::StringExecFns;

verus! {

/// What `src/aproar/storage/hdf5_storage.rs` holds in a new project.
pub const HDF5_STORAGE_TEXT: &'static str = r#"use super::StorageBackend;
use crate::omnixtracker::{OmniXError, OmniXMetry};
use anyhow::{Context, Result};
use hdf5::File;
use std::path::PathBuf;
use std::sync::Arc;

pub struct HDF5Storage {
    file_path: PathBuf,
    metrics: OmniXMetry,
}

impl HDF5Storage {
    pub fn new(file_path: PathBuf, metrics: OmniXMetry) -> Self {
        Self { file_path, metrics }
    }
}

impl StorageBackend for HDF5Storage {
    fn store(&self, key: &str, data: &[u8]) -> Result<(), OmniXError> {
        let start_time = std::time::Instant::now();
        let file = File::open_rw(&self.file_path)
            .or_else(|_| File::create(&self.file_path))
            .with_context(|| "Failed to open or create HDF5 file")
            .map_err(|e| OmniXError::FileSystemError(e.to_string()))?;

        let dataset = file
            .new_dataset::<u8>()
            .shape(data.len())
            .create(key)
            .with_context(|| "Failed to create HDF5 dataset")
            .map_err(|e| OmniXError::OperationFailed {
                operation: "HDF5 dataset creation".to_string(),
                details: e.to_string(),
            })?;

        dataset.write(data).map_err(|e| OmniXError::OperationFailed {
            operation: "HDF5 write".to_string(),
            details: e.to_string(),
        })?;

        let duration = start_time.elapsed();
        self.metrics.record_histogram("hdf5.store.duration".to_string(), duration.as_secs_f64());
        self.metrics.increment_counter("hdf5.store.success".to_string(), 1);

        Ok(())
    }

    fn retrieve(&self, key: &str) -> Result<Vec<u8>, OmniXError> {
        let start_time = std::time::Instant::now();
        let file = File::open(&self.file_path)
            .with_context(|| "Failed to open HDF5 file")
            .map_err(|e| OmniXError::FileSystemError(e.to_string()))?;

        let dataset = file.dataset(key).map_err(|e| OmniXError::OperationFailed {
            operation: "HDF5 dataset access".to_string(),
            details: e.to_string(),
        })?;

        let data: Vec<u8> = dataset.read_raw().map_err(|e| OmniXError::OperationFailed {
            operation: "HDF5 read".to_string(),
            details: e.to_string(),
        })?;

        let duration = start_time.elapsed();
        self.metrics.record_histogram("hdf5.retrieve.duration".to_string(), duration.as_secs_f64());
        self.metrics.increment_counter("hdf5.retrieve.success".to_string(), 1);

        Ok(data)
    }
}"#;

/// The text of `src/aproar/storage/hdf5_storage.rs`, the same for every project.
pub fn generate_hdf5_storage_content() -> (text: String)
    ensures
        text@ == HDF5_STORAGE_TEXT@,
{
    String::from_str(HDF5_STORAGE_TEXT)
}

/// What `src/aproar/storage/parquet_storage.rs` holds in a new project.
pub const PARQUET_STORAGE_TEXT: &'static str = r#"use super::StorageBackend;
use crate::omnixtracker::OmniXError;
use anyhow::{Context, Result};
use parquet::file::properties::WriterProperties;
use parquet::file::writer::SerializedFileWriter;
use parquet::file::reader::SerializedFileReader;
use parquet::schema::parser::parse_message_type;
use parquet::basic::Compression;
use parquet::record::{Row, RowAccessor};
use std::fs::File;
use std::path::PathBuf;
use std::sync::Arc;

pub struct ParquetStorage {
    file_path: PathBuf,
    schema: Arc<parquet::schema::types::Type>,
}

impl ParquetStorage {
    pub fn new(file_path: PathBuf) -> Self {
        let schema = Arc::new(Self::build_parquet_schema());
        Self { file_path, schema }
    }

    fn build_parquet_schema() -> parquet::schema::types::Type {
        parse_message_type(
            "
            message schema {
                REQUIRED BYTE_ARRAY key (UTF8);
                REQUIRED BINARY data;
            }
            ",
        )
        .expect("Failed to parse Parquet schema")
    }
}

impl StorageBackend for ParquetStorage {
    fn store(&self, key: &str, data: &[u8]) -> Result<(), OmniXError> {
        let file = File::create(&self.file_path)
            .with_context(|| "Failed to create Parquet file")
            .map_err(|e| OmniXError::FileSystemError(e.to_string()))?;

        let props = WriterProperties::builder()
            .set_compression(Compression::SNAPPY)
            .build();

        let mut writer = SerializedFileWriter::new(file, self.schema.clone(), props)
            .with_context(|| "Failed to create Parquet writer")
            .map_err(|e| OmniXError::OperationFailed {
                operation: "Parquet writer creation".to_string(),
                details: e.to_string(),
            })?;

        let mut row_group_writer = writer.next_row_group().unwrap();
        let mut key_column_writer = row_group_writer.next_column().unwrap().unwrap();
        if let parquet::column::writer::ColumnWriter::ByteArrayColumnWriter(ref mut typed_writer) = key_column_writer {
            let key_value = parquet::data_type::ByteArray::from(key.as_bytes());
            typed_writer.write_batch(&[key_value], None, None).unwrap();
        }
        row_group_writer.close_column(key_column_writer).unwrap();

        let mut data_column_writer = row_group_writer.next_column().unwrap().unwrap();
        if let parquet::column::writer::ColumnWriter::ByteArrayColumnWriter(ref mut typed_writer) = data_column_writer {
            let data_value = parquet::data_type::ByteArray::from(data);
            typed_writer.write_batch(&[data_value], None, None).unwrap();
        }
        row_group_writer.close_column(data_column_writer).unwrap();

        writer.close_row_group(row_group_writer).unwrap();
        writer.close().unwrap();

        Ok(())
    }

    fn retrieve(&self, key: &str) -> Result<Vec<u8>, OmniXError> {
        let file = File::open(&self.file_path)
            .with_context(|| "Failed to open Parquet file")
            .map_err(|e| OmniXError::FileSystemError(e.to_string()))?;

        let reader = SerializedFileReader::new(file)
            .with_context(|| "Failed to create Parquet reader")
            .map_err(|e| OmniXError::OperationFailed {
                operation: "Parquet reader creation".to_string(),
                details: e.to_string(),
            })?;

        let iter = reader.get_row_iter(None).unwrap();

        for record in iter {
            let record_key = record.get_string(0).unwrap();
            if record_key == key {
                let data = record.get_bytes(1).unwrap();
                return Ok(data.to_vec());
            }
        }

        Err(OmniXError::OperationFailed {
            operation: "Parquet retrieval".to_string(),
            details: "Key not found".to_string(),
        })
    }
}"#;

/// The text of `src/aproar/storage/parquet_storage.rs`, the same for every project.
pub fn generate_parquet_storage_content() -> (text: String)
    ensures
        text@ == PARQUET_STORAGE_TEXT@,
{
    String::from_str(PARQUET_STORAGE_TEXT)
}

/// What `src/aproar/storage/rocksdb_storage.rs` holds in a new project.
pub const ROCKSDB_STORAGE_TEXT: &'static str = r#"// src/aproar/storage/rocksdb_storage.rs  ~=#######D]======A===r===c====M===o===o===n=====<Lord[STORAGE]Xyn>=====S===t===u===d===i===o===s======[R|$>

use rocksdb::{DB, Options, ColumnFamilyDescriptor, WriteBatch, WriteOptions, ReadOptions, IteratorMode};
use crate::omnixtracker::{OmniXMetry, OmniXError};
use serde::{Serialize, Deserialize};
use parking_lot::{Mutex, RwLock};
use std::path::{Path, PathBuf};
use anyhow::{Context, Result};
use crate::constants::*;
use std::sync::Arc;
use bincode;


pub struct RocksDBStorage {
    db: Arc<Mutex<DB>>,
    metrics: OmniXMetry,
}

impl RocksDBStorage {
    pub fn new(path: &Path, metrics: OmniXMetry) -> Result<Self, OmniXError> {
        let mut opts = Options::default();
        opts.create_if_missing(true);
        opts.set_max_open_files(ROCKSDB_MAX_OPEN_FILES);
        opts.set_use_fsync(false);
        opts.set_keep_log_file_num(ROCKSDB_KEEP_LOG_FILE_NUM);
        opts.set_max_total_wal_size(ROCKSDB_MAX_TOTAL_WAL_SIZE);
        opts.set_max_background_jobs(ROCKSDB_MAX_BACKGROUND_JOBS);
        opts.set_compaction_style(rocksdb::DBCompactionStyle::Level);

        let cf_opts = Options::default();
        let cf_descriptor = ColumnFamilyDescriptor::new("default", cf_opts);

        let db = DB::open_cf_descriptors(&opts, path, vec![cf_descriptor])
            .map_err(|e| OmniXError::DatabaseError(format!("Failed to open RocksDB: {}", e)))?;

        Ok(Self {
            db: Arc::new(Mutex::new(db)),
            metrics,
        })
    }

    pub async fn put<T: Serialize>(&self, key: &[u8], value: &T) -> Result<(), OmniXError> {
        let start = std::time::Instant::now();
        let serialized = bincode::serialize(value)
            .map_err(|e| OmniXError::SerializationError(e.to_string()))?;

        let db = self.db.lock().await;
        db.put(key, &serialized)
            .map_err(|e| OmniXError::DatabaseError(format!("Failed to put data: {}", e)))?;

        self.metrics.record_histogram("rocksdb.put.duration".to_string(), start.elapsed().as_secs_f64());
        self.metrics.increment_counter("rocksdb.put.count".to_string(), 1);
        Ok(())
    }

    pub async fn get<T: for<'de> Deserialize<'de>>(&self, key: &[u8]) -> Result<Option<T>, OmniXError> {
        let start = std::time::Instant::now();
        let db = self.db.lock().await;
        let result = db.get(key)
            .map_err(|e| OmniXError::DatabaseError(format!("Failed to get data: {}", e)))?;

        let duration = start.elapsed().as_secs_f64();
        self.metrics.record_histogram("rocksdb.get.duration".to_string(), duration);
        self.metrics.increment_counter("rocksdb.get.count".to_string(), 1);

        match result {
            Some(data) => {
                let deserialized = bincode::deserialize(&data)
                    .map_err(|e| OmniXError::DeserializationError(e.to_string()))?;
                Ok(Some(deserialized))
            }
            None => Ok(None),
        }
    }

    pub async fn delete(&self, key: &[u8]) -> Result<(), OmniXError> {
        let start = std::time::Instant::now();
        let db = self.db.lock().await;
        db.delete(key)
            .map_err(|e| OmniXError::DatabaseError(format!("Failed to delete data: {}", e)))?;

        self.metrics.record_histogram("rocksdb.delete.duration".to_string(), start.elapsed().as_secs_f64());
        self.metrics.increment_counter("rocksdb.delete.count".to_string(), 1);
        Ok(())
    }

    pub async fn batch_write<T: Serialize>(&self, writes: Vec<(Vec<u8>, T)>) -> Result<(), OmniXError> {
        let start = std::time::Instant::now();
        let mut batch = WriteBatch::default();
        for (key, value) in writes {
            let serialized = bincode::serialize(&value)
                .map_err(|e| OmniXError::SerializationError(e.to_string()))?;
            batch.put(&key, &serialized);
        }

        let db = self.db.lock().await;
        let mut write_opts = WriteOptions::default();
        write_opts.set_sync(false);
        db.write_opt(batch, &write_opts)
            .map_err(|e| OmniXError::DatabaseError(format!("Failed to batch write: {}", e)))?;

        self.metrics.record_histogram("rocksdb.batch_write.duration".to_string(), start.elapsed().as_secs_f64());
        self.metrics.increment_counter("rocksdb.batch_write.count".to_string(), 1);
        Ok(())
    }

    pub async fn range_scan<T: for<'de> Deserialize<'de>>(&self, start: &[u8], end: &[u8]) -> Result<Vec<(Vec<u8>, T)>, OmniXError> {
        let start = std::time::Instant::now();
        let db = self.db.lock().await;
        let mut read_opts = ReadOptions::default();
        read_opts.set_iterate_lower_bound(start.to_vec());
        read_opts.set_iterate_upper_bound(end.to_vec());

        let iter = db.iterator_opt(IteratorMode::Start, read_opts);
        let mut result = Vec::new();

        for item in iter {
            let (key, value) = item.map_err(|e| OmniXError::DatabaseError(format!("Failed to iterate: {}", e)))?;
            let deserialized: T = bincode::deserialize(&value)
                .map_err(|e| OmniXError::DeserializationError(e.to_string()))?;
            result.push((key.to_vec(), deserialized));
        }

        self.metrics.record_histogram("rocksdb.range_scan.duration".to_string(), start.elapsed().as_secs_f64());
        self.metrics.increment_counter("rocksdb.range_scan.count".to_string(), 1);
        Ok(result)
    }

    pub async fn compact(&self) -> Result<(), OmniXError> {
        let start = std::time::Instant::now();
        let db = self.db.lock().await;
        db.compact_range::<&[u8], &[u8]>(None, None);

        self.metrics.record_histogram("rocksdb.compact.duration".to_string(), start.elapsed().as_secs_f64());
        self.metrics.increment_counter("rocksdb.compact.count".to_string(), 1);
        Ok(())
    }
}

pub struct RocksDBPersistence {
    db: Arc<RwLock<DB>>,
    metrics: OmniXMetry,
}

impl RocksDBPersistence {
    pub fn new(db_path: PathBuf, metrics: OmniXMetry) -> Result<Self, OmniXError> {
        let mut opts = Options::default();
        opts.create_if_missing(true);
        let db = DB::open(&opts, &db_path)
            .with_context(|| format!("Failed to open RocksDB at {}", db_path.display()))
            .map_err(|e| OmniXError::DatabaseError(e.to_string()))?;

        Ok(Self {
            db: Arc::new(RwLock::new(db)),
            metrics,
        })
    }
}

impl RetrievalCache for RocksDBPersistence {
    fn get(&self, key: &str) -> Result<Option<Vec<u8>>, OmniXError> {
        let start_time = std::time::Instant::now();
        let result = self.db.read().get(key.as_bytes());
        let duration = start_time.elapsed();

        self.metrics.record_histogram("rocksdb.get.duration".to_string(), duration.as_secs_f64());
        self.metrics.increment_counter("rocksdb.get.total".to_string(), 1);

        match result {
            Ok(value) => {
                self.metrics.increment_counter("rocksdb.get.success".to_string(), 1);
                Ok(value)
            }
            Err(e) => {
                self.metrics.increment_counter("rocksdb.get.failure".to_string(), 1);
                Err(OmniXError::DatabaseError(e.to_string()))
            }
        }
    }

    fn set(&self, key: &str, value: &[u8]) -> Result<(), OmniXError> {
        let start_time = std::time::Instant::now();
        let result = self.db.write().put(key.as_bytes(), value);
        let duration = start_time.elapsed();

        self.metrics.record_histogram("rocksdb.set.duration".to_string(), duration.as_secs_f64());
        self.metrics.increment_counter("rocksdb.set.total".to_string(), 1);

        match result {
            Ok(_) => {
                self.metrics.increment_counter("rocksdb.set.success".to_string(), 1);
                Ok(())
            }
            Err(e) => {
                self.metrics.increment_counter("rocksdb.set.failure".to_string(), 1);
                Err(OmniXError::DatabaseError(e.to_string()))
            }
        }
    }
}"#;

/// The text of `src/aproar/storage/rocksdb_storage.rs`, the same for every project.
pub fn generate_rocksdb_storage_content() -> (text: String)
    ensures
        text@ == ROCKSDB_STORAGE_TEXT@,
{
    String::from_str(ROCKSDB_STORAGE_TEXT)
}

/// What `src/aproar/storage/tiledb_storage.rs` holds in a new project.
pub const TILEDB_STORAGE_TEXT: &'static str = r#"use super::StorageBackend;
use crate::omnixtracker::OmniXError;
use anyhow::{Context, Result};
use tiledb::Context;
use tiledb::Array;
use tiledb::Config;
use tiledb::Query;
use tiledb::Datatype;
use std::path::PathBuf;

pub struct TileDBStorage {
    array_uri: String,
    ctx: Context,
}

impl TileDBStorage {
    pub fn new(array_uri: &str) -> Self {
        let ctx = Context::new(&Config::default()).unwrap();
        Self {
            array_uri: array_uri.to_string(),
            ctx,
        }
    }

    fn create_array(&self) -> Result<(), OmniXError> {
        let array_schema = tiledb::ArraySchema::new(&self.ctx, tiledb::ArrayType::Sparse)
            .map_err(|e| OmniXError::OperationFailed {
                operation: "TileDB ArraySchema creation".to_string(),
                details: e.to_string(),
            })?;

        let dim = tiledb::Dimension::new(&self.ctx, "key", Datatype::StringAscii)
            .map_err(|e| OmniXError::OperationFailed {
                operation: "TileDB Dimension creation".to_string(),
                details: e.to_string(),
            })?;

        let domain = tiledb::Domain::new(&self.ctx)
            .map_err(|e| OmniXError::OperationFailed {
                operation: "TileDB Domain creation".to_string(),
                details: e.to_string(),
            })?
            .add_dimension(&dim)
            .map_err(|e| OmniXError::OperationFailed {
                operation: "Adding dimension to Domain".to_string(),
                details: e.to_string(),
            })?;

        let attr = tiledb::Attribute::new(&self.ctx, "data", Datatype::Blob)
            .map_err(|e| OmniXError::OperationFailed {
                operation: "TileDB Attribute creation".to_string(),
                details: e.to_string(),
            })?;

        let array_schema = array_schema
            .set_domain(&domain)
            .map_err(|e| OmniXError::OperationFailed {
                operation: "Setting Domain on ArraySchema".to_string(),
                details: e.to_string(),
            })?
            .add_attribute(&attr)
            .map_err(|e| OmniXError::OperationFailed {
                operation: "Adding Attribute to ArraySchema".to_string(),
                details: e.to_string(),
            })?;

        Array::create(&self.ctx, &self.array_uri, &array_schema)
            .map_err(|e| OmniXError::OperationFailed {
                operation: "Creating TileDB Array".to_string(),
                details: e.to_string(),
            })?;

        Ok(())
    }
}

impl StorageBackend for TileDBStorage {
    fn store(&self, key: &str, data: &[u8]) -> Result<(), OmniXError> {
        if !Array::exists(&self.ctx, &self.array_uri) {
            self.create_array()?;
        }

        let array = Array::open(&self.ctx, &self.array_uri, tiledb::QueryType::Write)
            .map_err(|e| OmniXError::OperationFailed {
                operation: "Opening TileDB Array for writing".to_string(),
                details: e.to_string(),
            })?;

        let mut query = Query::new(&self.ctx, &array, tiledb::QueryType::Write);

        query
            .set_layout(tiledb::Layout::Unordered)
            .map_err(|e| OmniXError::OperationFailed {
                operation: "Setting query layout".to_string(),
                details: e.to_string(),
            })?
            .set_buffer("key", vec![key.as_bytes()])
            .map_err(|e| OmniXError::OperationFailed {
                operation: "Setting key buffer".to_string(),
                details: e.to_string(),
            })?
            .set_buffer("data", data.to_vec())
            .map_err(|e| OmniXError::OperationFailed {
                operation: "Setting data buffer".to_string(),
                details: e.to_string(),
            })?;

        query.submit().map_err(|e| OmniXError::OperationFailed {
            operation: "Submitting TileDB query".to_string(),
            details: e.to_string(),
        })?;

        array.close().unwrap();

        Ok(())
    }

    fn retrieve(&self, key: &str) -> Result<Vec<u8>, OmniXError> {
        if !Array::exists(&self.ctx, &self.array_uri) {
            return Err(OmniXError::OperationFailed {
                operation: "TileDB retrieval".to_string(),
                details: "Array does not exist".to_string(),
            });
        }

        let array = Array::open(&self.ctx, &self.array_uri, tiledb::QueryType::Read)
            .map_err(|e| OmniXError::OperationFailed {
                operation: "Opening TileDB Array for reading".to_string(),
                details: e.to_string(),
            })?;

        let mut query = Query::new(&self.ctx, &array, tiledb::QueryType::Read);

        query
            .set_layout(tiledb::Layout::Unordered)
            .map_err(|e| OmniXError::OperationFailed {
                operation: "Setting query layout".to_string(),
                details: e.to_string(),
            })?
            .set_subarray(&[key])
            .map_err(|e| OmniXError::OperationFailed {
                operation: "Setting subarray".to_string(),
                details: e.to_string(),
            })?;

        let data: Vec<u8> = Vec::new();
        query
            .set_buffer("data", data)
            .map_err(|e| OmniXError::OperationFailed {
                operation: "Setting data buffer".to_string(),
                details: e.to_string(),
            })?;

        query.submit().map_err(|e| OmniXError::OperationFailed {
            operation: "Submitting TileDB query".to_string(),
            details: e.to_string(),
        })?;

        let result_data = query
            .result_buffer::<u8>("data")
            .map_err(|e| OmniXError::OperationFailed {
                operation: "Retrieving result buffer".to_string(),
                details: e.to_string(),
            })?
            .to_vec();

        array.close().unwrap();

        Ok(result_data)
    }
}"#;

/// The text of `src/aproar/storage/tiledb_storage.rs`, the same for every project.
pub fn generate_tiledb_storage_content() -> (text: String)
    ensures
        text@ == TILEDB_STORAGE_TEXT@,
{
    String::from_str(TILEDB_STORAGE_TEXT)
}

/// What `src/aproar/storage/mod.rs` holds in a new project.
pub const STORAGE_MOD_TEXT: &'static str = r#"mod hdf5_storage;
mod parquet_storage;
mod tiledb_storage;

use crate::omnixtracker::OmnixError;

pub trait StorageBackend {
    fn store(&self, key: &str, data: &[u8]) -> Result<(), OmnixError>;
    fn retrieve(&self, key: &str) -> Result<Vec<u8>, OmnixError>;
}

pub use hdf5_storage::HDF5Storage;
pub use parquet_storage::ParquetStorage;
pub use tiledb_storage::TileDBStorage;"#;

/// The text of `src/aproar/storage/mod.rs`, the same for every project.
pub fn generate_storage_mod_content() -> (text: String)
    ensures
        text@ == STORAGE_MOD_TEXT@,
{
    String::from_str(STORAGE_MOD_TEXT)
}

} // verus!
