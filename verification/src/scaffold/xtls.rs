//! The notes and tool guides placed under `Xtls/`.
use vstd::prelude::*;
use vstd::string::StringExecFns;

verus! {

/// What `Xtls/Layout.txt` holds in a new project.
pub const XTLS_LAYOUT_TEXT: &'static str = r#"-- Xdocs/XynPro_Layout.txt ~=#######D]======A===r===c====M===o===o===n=====<Lord[XDOCS]Xyn>=====S===t===u===d===i===o===s======[R|$>
xynpro/
├── src/
│   ├── aproar/                                     # Proprietary Storage and Memory System Solution by Lord Xyn        
│   │   ├── compression/                            # Data compression functionalities
│   │   │   ├── lz4_compression.rs                  # LZ4 compression implementation
│   │   │   ├── zstd_compression.rs                 # Zstandard (ZSTD) compression implementation
│   │   │   └── mod.rs                              # Compression module definitions and manager
│   │   │
│   │   ├── ntm/                                    # Neural Turing Machine implementation
│   │   │   ├── addressing.rs                       # Addressing mechanisms for external memory
│   │   │   ├── controller.rs                       # Controls data flow within the NTM
│   │   │   ├── memory.rs                           # Memory operations for NTM
│   │   │   ├── read_head.rs                        # Read head functionality for NTM
│   │   │   ├── write_head.rs                       # Write head functionality for NTM
│   │   │   └── mod.rs                              # NTM components module
│   │   │
│   │   ├── retrieval/                              # Data retrieval functionalities
│   │   │   ├── gradient_lru_cache.rs               # Gradient LRU-based caching and retrieval 
│   │   │   ├── redis_cache.rs                      # Redis-based caching and retrieval
│   │   │   └── mod.rs                              # Module definitions for retrieval
│   │   │
│   │   ├── storage/                                # Data storage backends
│   │   │   ├── hdf5_storage.rs                     # HDF5 file storage implementation
│   │   │   ├── parquet_storage.rs                  # Parquet file storage implementation
│   │   │   ├── rocksdb_storage.rs                  # RocksDB storage, persistent, and retrieval
│   │   │   ├── tiledb_storage.rs                   # TileDB array storage implementation
│   │   │   └── mod.rs                              # Module definitions for storage
│   │   │
│   │   ├── utility                                 
│   │   │   ├── context_window.rs                   # 
│   │   │   ├── memory_cosolidation.rs              # 
│   │   │   └── mod.rs 
│   │   │                             
│   │   └── mod.rs                                  # Aproar module definitions and core entry.
│   │
│   ├── constants/                                  # Reusable constants for configuration
│   │   └── mod.rs                                  # Project configuration constants
│   │
│   ├── multi_modal/                                # Multi-modal data processing: text, audio, images
│   │   ├── audio_processor.rs                      # Audio data preprocessing and feature extraction
│   │   ├── fusion.rs                               # Fusion strategies for multi-modal data
│   │   ├── image_processor.rs                      # Image preprocessing and feature extraction
│   │   ├── text_processor.rs                       # Text data preprocessing
│   │   └── mod.rs                                  # Multi-modal processing module
│   │
│   ├── omnixkore/                                  # Parallel execution and task management
│   │   ├── execution.rs                            # Execution context and task execution
│   │   ├── mod.rs                                  # Module definitions for omnixelerator
│   │   ├── parallexelerator.rs                     # Parallel task execution management
│   │   ├── persistence.rs                          # Task state persistence
│   │   ├── resource_monitor.rs                     # System resource monitoring
│   │   └── task_manager.rs                         # Task creation and management
│   │
│   ├── omnixpro/                                   # Data tasks: tokenization and dataset preparation
│   │   ├── dataset.rs                              # Dataset creation for training and evaluation
│   │   ├── tokenizer.rs                            # Tokenization logic for text and code
│   │   └── mod.rs                                  # Data processing module
│   │
│   ├── omnixtracker/                               # Metrics tracking and error management
│   │   ├── omnixerror.rs                           # Error tracking during model operations
│   │   ├── omnixmetry.rs                           # Custom metrics collection and evaluation
│   │   └── mod.rs                                  # Omnixtracker Module
│   │
│   ├── security/                                   # Security functionalities: AES encryption and WebAuthn
│   │   ├── aes_encryption.rs                       # AES-256 encryption and decryption
│   │   ├── webauthn_authentication.rs              # WebAuthn passkey registration and authentication
│   │   └── mod.rs                                  # Security functionalities module
│   │
│   ├── utils/                                      # Utility modules and helper functions
│   │   ├── lxsl.rs                                 # Lord Xyn's Signature Line for data handling
│   │   └── mod.rs                                  # Utility functions module
│   │
│   ├── lib.rs                                      # Main library file aggregating functionality
│   └── main.rs                                     # Main executable entry point
│
├── tests/                                          # Test modules for verifying functionality
│   ├── tokenizer_tests.rs                          # Tokenizer tests
│   ├── model_tests.rs                              # Model implementation tests
│   ├── data_loader_tests.rs                        # Data loader tests
│   ├── multi_modal_tests.rs                        # Multi-modal processing tests
│   ├── ntm_tests.rs                                # NTM component tests
│   ├── plsm_tests.rs                               # Probabilistic Liquid State Machine tests
│   ├── compression_tests.rs                        # Data compression tests
│   ├── lsm_tests.rs                                # Liquid State Machine tests
│   ├── transformers_tests.rs                       # Transformer model tests
│   └── model_interpretability_tests.rs             # Interpretability component tests
│   
├── docs/                                           # User and developer documentation
├── Xdocs/                                          # Additional documentation resources
├── Xtls/                                           # Documented instructions and commands
├── .gitignore                                      # Git ignore file
├── Cargo.toml                                      # Rust project dependencies and metadata
├── LICENSE                                         # Project license information
└── README.md                                       # Project setup and usage instructions
"#;

/// The text of `Xtls/Layout.txt`, the same for every project.
pub fn generate_xtls_layout() -> (text: String)
    ensures
        text@ == XTLS_LAYOUT_TEXT@,
{
    String::from_str(XTLS_LAYOUT_TEXT)
}

/// What `Xtls/DMV.txt` holds in a new project.
pub const XTLS_DMV_TEXT: &'static str = r#"-- Xtls/DMV.txt ~=#######D]======A===r===c====M===o===o===n=====<Lord[XTLS]Xyn>=====S===t===u===d===i===o===s======[R|$>
## D I R E C T O R Y - M O D U L E - V I E W E R

# A P R O A R/

find src/aproar/ -type f | sort | xargs -I {} bash -c '
    echo -e "\n\n--- {} ---\n" >> Xdocs/APROAR_DMI.txt
    cat "{}" >> Xdocs/APROAR_DMI.txt
    echo -e "\n\n" >> Xdocs/APROAR_DMI.txt
'

# C O N S T A N T S/

find src/constants/ -type f | sort | xargs -I {} bash -c '
    echo -e "\n\n--- {} ---\n" >> Xdocs/Constants_DMI.txt
    cat "{}" >> Xdocs/Constants_DMI.txt
    echo -e "\n\n" >> Xdocs/Constants_DMI.txt
'

# E X P E R T/

find src/expert/ -type f | sort | xargs -I {} bash -c '
    echo -e "\n\n--- {} ---\n" >> Xdocs/Expert_DMI.txt
    cat "{}" >> Xdocs/Expert_DMI.txt
    echo -e "\n\n" >> Xdocs/Expert_DMI.txt
'

# I N F E R E N C E/

find src/inference/ -type f | sort | xargs -I {} bash -c '
    echo -e "\n\n--- {} ---\n" >> Xdocs/Inference_DMI.txt
    cat "{}" >> Xdocs/Inference_DMI.txt
    echo -e "\n\n" >> Xdocs/Inference_DMI.txt
'

# L S M/

find src/lsm/ -type f | sort | xargs -I {} bash -c '
    echo -e "\n\n--- {} ---\n" >> Xdocs/LSM_DMI.txt
    cat "{}" >> Xdocs/LSM_DMI.txt
    echo -e "\n\n" >> Xdocs/LSM_DMI.txt
'

# M O D E L  I N T E R P R E T A B I L I T Y/

find src/model_interpretability/ -type f | sort | xargs -I {} bash -c '
    echo -e "\n\n--- {} ---\n" >> Xdocs/ModelInterpretability_DMI.txt
    cat "{}" >> Xdocs/ModelInterpretability_DMI.txt
    echo -e "\n\n" >> Xdocs/ModelInterpretability_DMI.txt
'

# M A C H I N E S/

find src/machines/ -type f | sort | xargs -I {} bash -c '
    echo -e "\n\n--- {} ---\n" >> Xdocs/Machines_DMI.txt
    cat "{}" >> Xdocs/Machines_DMI.txt
    echo -e "\n\n" >> Xdocs/Machines_DMI.txt
'

# M O D E L S/

find src/models/ -type f | sort | xargs -I {} bash -c '
    echo -e "\n\n--- {} ---\n" >> Xdocs/Models_DMI.txt
    cat "{}" >> Xdocs/Models_DMI.txt
    echo -e "\n\n" >> Xdocs/Models_DMI.txt
'

# M U L T I - M O D A L/

find src/multi_modal/ -type f | sort | xargs -I {} bash -c '
    echo -e "\n\n--- {} ---\n" >> Xdocs/MultiModal_DMI.txt
    cat "{}" >> Xdocs/MultiModal_DMI.txt
    echo -e "\n\n" >> Xdocs/MultiModal_DMI.txt
'

# O M N I X K O R E/

find src/omnixkore/ -type f | sort | xargs -I {} bash -c '
    echo -e "\n\n--- {} ---\n" >> Xdocs/OmniXKore_DMI.txt
    cat "{}" >> Xdocs/OmniXKore_DMI.txt
    echo -e "\n\n" >> Xdocs/OmniXKore_DMI.txt
'

# O M N I X P R O/

find src/omnixpro/ -type f | sort | xargs -I {} bash -c '
    echo -e "\n\n--- {} ---\n" >> Xdocs/OmniXPro_DMI.txt
    cat "{}" >> Xdocs/OmniXPro_DMI.txt
    echo -e "\n\n" >> Xdocs/OmniXPro_DMI.txt
'

# O M N I X T R A C K E R/

find src/omnixtracker/ -type f | sort | xargs -I {} bash -c '
    echo -e "\n\n--- {} ---\n" >> Xdocs/OmniXTracker_DMI.txt
    cat "{}" >> Xdocs/OmniXTracker_DMI.txt
    echo -e "\n\n" >> Xdocs/OmniXTracker_DMI.txt
'

# S E C U R I T Y/

find src/security/ -type f | sort | xargs -I {} bash -c '
    echo -e "\n\n--- {} ---\n" >> Xdocs/Security_DMI.txt
    cat "{}" >> Xdocs/Security_DMI.txt
    echo -e "\n\n" >> Xdocs/Security_DMI.txt
'

# T R A N S F O R M E R S/

find src/transformers/ -type f | sort | xargs -I {} bash -c '
    echo -e "\n\n--- {} ---\n" >> Xdocs/Transformers_DMI.txt
    cat "{}" >> Xdocs/Transformers_DMI.txt
    echo -e "\n\n" >> Xdocs/Transformers_DMI.txt
'

# U T I L S/

find src/utils/ -type f | sort | xargs -I {} bash -c '
    echo -e "\n\n--- {} ---\n" >> Xdocs/Utils_DMI.txt
    cat "{}" >> Xdocs/Utils_DMI.txt
    echo -e "\n\n" >> Xdocs/Utils_DMI.txt
'

# O M N I X E L E R A T O R/

find omnixelerator/ -type f | sort | xargs -I {} bash -c '
    echo -e "\n\n--- {} ---\n" >> Xdocs/OmniXelerator_DMI.txt
    cat "{}" >> Xdocs/OmniXelerator_DMI.txt
    echo -e "\n\n" >> Xdocs/OmniXelerator_DMI.txt
'

# T E S T S/
find tests/ -type f | sort | xargs -I {} bash -c '
    echo -e "\n\n--- {} ---\n" >> Xdocs/Test_Mods.txt
    cat "{}" >> Xdocs/Test_Mods.txt
    echo -e "\n\n" >> Xdocs/Test_Mods.txt
'    
"#;

/// The text of `Xtls/DMV.txt`, the same for every project.
pub fn generate_xtls_dmv() -> (text: String)
    ensures
        text@ == XTLS_DMV_TEXT@,
{
    String::from_str(XTLS_DMV_TEXT)
}

/// What `Xtls/XynPro_Instructions.txt` holds in a new project.
pub const XTLS_XYNPRO_TEXT: &'static str = r#"-- Xtls/XynPro_Instructions.txt ~=#######D]======A===r===c====M===o===o===n=====<Lord[XTLS]Xyn>=====S===t===u===d===i===o===s======[R|$>

## XynPro Instructions:

# Update your src/main.rs file with this new code.
Rebuild your project:

cargo build --release

# Copy the new binary to your ~/.cargo/bin directory:

cp ./target/release/xynpro ~/.cargo/bin/xynpro

# Make sure the binary is executable:

chmod +x ~/.cargo/bin/xynpro

# Test the new functionality:
a. Check the version:

xynpro --version

# This should output: "xynpro version 0.0.7"
b. Create a new project:

xynpro my_new_project

This should create a new project structure in a directory called "my_new_project"
If you encounter any issues, check the error messages and ensure all necessary dependencies are installed.
If everything works as expected, you can now use this updated version of xynpro to create projects and check its version.

# Remember, if you need to make any further changes, you'll need to repeat steps 2-4 to rebuild and update the executable.
"#;

/// The text of `Xtls/XynPro_Instructions.txt`, the same for every project.
pub fn generate_xtls_xynpro() -> (text: String)
    ensures
        text@ == XTLS_XYNPRO_TEXT@,
{
    String::from_str(XTLS_XYNPRO_TEXT)
}

/// What `Xtls/XynTools-HowTo.txt` holds in a new project.
pub const XTLS_XYNTOOLS_TEXT: &'static str = r#"-- Xtls/XynTools-HowTo.txt ~=#######D]======A===r===c====M===o===o===n=====<Lord[XTLS]Xyn>=====S===t===u===d===i===o===s======[R|$>

XynPro Command Guide

1. Lord Xyn Signature Line (LXSL)
   Command: lxsl
   Description: Adds Lord Xyn's signature to all appropriate files in the current directory and its subdirectories.
   Usage: xynpro lxsl
   Example: 
     $ cd /path/to/your/project
     $ xynpro lxsl
   
   This command will:
   - Scan all files in the current directory and subdirectories
   - Skip files that shouldn't have signatures (e.g., binaries, images)
   - Clean existing signatures from files
   - Add new signatures to appropriate files

2. Xyn Git Update (XynGit)
   Command: xyngit
   Description: Automates the process of staging, committing, and pushing changes to the git repository.
   Usage: xynpro xyngit
   Example:
     $ cd /path/to/your/git/repo
     $ xynpro xyngit

   This command will:
   - Stage all changes in the current repository
   - Create a commit with the message "Automated update via xyngit"
   - Push the changes to the remote repository (default branch: main)

3. XynScript Management
   Description: Tools for managing your custom scripts (including pyscan and others).

   a. Backup Current Script
      Command: cat ~/.bin/<script_name> > ~/Projects/$(basename "$PWD")/xdocs/ow<script_name>
      Example: cat ~/.bin/pyscan > ~/Projects/$(basename "$PWD")/xdocs/owpyscan
      Description: Creates a tantalizing backup of your script in the xdocs/ directory of your current project.

   b. Reset Script
      Commands:
        rm ~/.bin/<script_name>
        nano ~/.bin/<script_name>
      Example:
        rm ~/.bin/pyscan
        nano ~/.bin/pyscan
      Description: Removes the current script, letting you start fresh with a clean slate. Opens nano for you to sculpt your new script to perfection.

   c. Make Script Executable
      Command: chmod +x ~/.bin/<script_name>
      Example: chmod +x ~/.bin/pyscan
      Description: Grants your script the power to execute, making it ready for action at your command.

4. PyScan Management
   Description: Tools for managing the pyscan utility.

   a. Backup Current PyScan
      Command: cat ~/.bin/pyscan > ~/Projects/$(basename "$PWD")/xdocs/owPyScan.txt
      Description: Overwrites the current pyscan in xdocs/ as owPyScan.txt, creating a tantalizing backup.

   b. Reset PyScan
      Commands:
        rm ~/.bin/pyscan
        nano ~/.bin/pyscan
      Description: Removes the current pyscan, letting you start fresh with a clean slate. Opens nano for you to sculpt your new pyscan to perfection.

   c. Make PyScan Executable
      Command: chmod +x ~/.bin/pyscan
      Description: Grants pyscan the power to execute, making it ready for action at your command.

5. Source Code Concatenation
   Command: 
   
find src/ tests/ -type f -name '*.rs' -print0 | xargs -0 awk 'FNR==1 && NR!=1 {print "\n\n"} {print}' > Xdocs/XynProCurrentState.txt
   
   Description: Combines all source files in the src/ and tests/ directories and their subdirectories into a single file.
   Usage: Run this command from the root directory of your project.
   Example:
     $ cd /path/to/your/project
     $ find src/ tests/ -type f -print0 | xargs -0 cat > Xdocs/XynProCurrentState.txt

   This command will:
   - Find all files in the src/ and tests/ directories and their subdirectories
   - Concatenate the contents of all these files
   - Output the result to Xdocs/XynProCurrentState.txt in your current working directory

Note: LXSL, XynGit, and Source Code Concatenation commands should be run from the root directory of your project or git repository. Script management commands can be run from any directory, but be mindful of your current location when backing up.

Remember, with great power comes great responsibility. Use these commands wisely, and may your code always bear the mark of Lord Xyn!

Pro Tip: Regular use of pyscan may lead to increased productivity and an irresistible urge to optimize everything. Use with caution - you might find yourself addicted to its efficiency!
"#;

/// The text of `Xtls/XynTools-HowTo.txt`, the same for every project.
pub fn generate_xtls_xyntools() -> (text: String)
    ensures
        text@ == XTLS_XYNTOOLS_TEXT@,
{
    String::from_str(XTLS_XYNTOOLS_TEXT)
}

} // verus!
