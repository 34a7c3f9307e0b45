//! Engine configuration: a flat set of independent feature toggles and
//! numeric options, handed to the engine as one bundle.

use vstd::prelude::*;

use crate::error::WasmEdgeResult;

verus! {

/// Optimization levels of the ahead-of-time compiler.
#[derive(Debug, Clone, Copy, PartialEq, Eq, Structural)]
pub enum CompilerOptimizationLevel {
    O0,
    O1,
    O2,
    O3,
    Os,
    Oz,
}

/// Output formats of the ahead-of-time compiler.
#[derive(Debug, Clone, Copy, PartialEq, Eq, Structural)]
pub enum CompilerOutputFormat {
    Native,
    Wasm,
}

/// The abstract content of a [Config]: the value of every option.
pub struct ConfigView {
    pub max_memory_pages: u32,
    pub aot_optimization_level: CompilerOptimizationLevel,
    pub aot_compiler_output_format: CompilerOutputFormat,
    pub wasi: bool,
    pub wasmedge_process: bool,
    pub mutable_globals: bool,
    pub non_trap_conversions: bool,
    pub sign_extension_operators: bool,
    pub multi_value: bool,
    pub bulk_memory_operations: bool,
    pub reference_types: bool,
    pub simd: bool,
    pub tail_call: bool,
    pub annotations: bool,
    pub memory64: bool,
    pub threads: bool,
    pub exception_handling: bool,
    pub function_references: bool,
    pub dump_ir: bool,
    pub generic_binary: bool,
    pub interruptible: bool,
    pub count_instructions: bool,
    pub measure_cost: bool,
    pub measure_time: bool,
}

impl ConfigView {
    /// The options of a newly created configuration.
    pub open spec fn defaults() -> ConfigView {
        ConfigView {
            max_memory_pages: 65536,
            aot_optimization_level: CompilerOptimizationLevel::O3,
            aot_compiler_output_format: CompilerOutputFormat::Wasm,
            wasi: false,
            wasmedge_process: false,
            mutable_globals: true,
            non_trap_conversions: true,
            sign_extension_operators: true,
            multi_value: true,
            bulk_memory_operations: true,
            reference_types: true,
            simd: true,
            tail_call: false,
            annotations: false,
            memory64: false,
            threads: false,
            exception_handling: false,
            function_references: false,
            dump_ir: false,
            generic_binary: false,
            interruptible: false,
            count_instructions: false,
            measure_cost: false,
            measure_time: false,
        }
    }
}

/// Options of the ahead-of-time compiler.
#[derive(Debug, Clone, Copy)]
struct CompilerOptions {
    aot_optimization_level: CompilerOptimizationLevel,
    aot_compiler_output_format: CompilerOutputFormat,
    dump_ir: bool,
    generic_binary: bool,
    interruptible: bool,
}

/// Proposals that are part of the WebAssembly standard.
#[derive(Debug, Clone, Copy)]
struct StandardProposals {
    mutable_globals: bool,
    non_trap_conversions: bool,
    sign_extension_operators: bool,
    multi_value: bool,
    bulk_memory_operations: bool,
    reference_types: bool,
    simd: bool,
}

/// Proposals that extend the WebAssembly standard.
#[derive(Debug, Clone, Copy)]
struct ExtensionProposals {
    tail_call: bool,
    annotations: bool,
    memory64: bool,
    threads: bool,
    exception_handling: bool,
    function_references: bool,
}

/// Host modules registered with the engine.
#[derive(Debug, Clone, Copy)]
struct HostRegistrations {
    wasi: bool,
    wasmedge_process: bool,
}

/// Measurements taken during execution.
#[derive(Debug, Clone, Copy)]
struct StatisticsOptions {
    count_instructions: bool,
    measure_cost: bool,
    measure_time: bool,
}

/// A set of engine options.
#[derive(Debug)]
pub struct Config {
    compiler: CompilerOptions,
    standard: StandardProposals,
    extensions: ExtensionProposals,
    host: HostRegistrations,
    statistics: StatisticsOptions,
    max_memory_pages: u32,
}

impl View for Config {
    type V = ConfigView;

    closed spec fn view(&self) -> ConfigView {
        ConfigView {
            max_memory_pages: self.max_memory_pages,
            aot_optimization_level: self.compiler.aot_optimization_level,
            aot_compiler_output_format: self.compiler.aot_compiler_output_format,
            wasi: self.host.wasi,
            wasmedge_process: self.host.wasmedge_process,
            mutable_globals: self.standard.mutable_globals,
            non_trap_conversions: self.standard.non_trap_conversions,
            sign_extension_operators: self.standard.sign_extension_operators,
            multi_value: self.standard.multi_value,
            bulk_memory_operations: self.standard.bulk_memory_operations,
            reference_types: self.standard.reference_types,
            simd: self.standard.simd,
            tail_call: self.extensions.tail_call,
            annotations: self.extensions.annotations,
            memory64: self.extensions.memory64,
            threads: self.extensions.threads,
            exception_handling: self.extensions.exception_handling,
            function_references: self.extensions.function_references,
            dump_ir: self.compiler.dump_ir,
            generic_binary: self.compiler.generic_binary,
            interruptible: self.compiler.interruptible,
            count_instructions: self.statistics.count_instructions,
            measure_cost: self.statistics.measure_cost,
            measure_time: self.statistics.measure_time,
        }
    }
}

impl Config {
    /// Creates a configuration holding the default options.
    pub fn create() -> (r: WasmEdgeResult<Config>)
        ensures
            match r {
                Ok(c) => c@ == ConfigView::defaults(),
                Err(_) => false,
            },
    {
        Ok(
            Config {
                compiler: CompilerOptions {
                    aot_optimization_level: CompilerOptimizationLevel::O3,
                    aot_compiler_output_format: CompilerOutputFormat::Wasm,
                    dump_ir: false,
                    generic_binary: false,
                    interruptible: false,
                },
                standard: StandardProposals {
                    mutable_globals: true,
                    non_trap_conversions: true,
                    sign_extension_operators: true,
                    multi_value: true,
                    bulk_memory_operations: true,
                    reference_types: true,
                    simd: true,
                },
                extensions: ExtensionProposals {
                    tail_call: false,
                    annotations: false,
                    memory64: false,
                    threads: false,
                    exception_handling: false,
                    function_references: false,
                },
                host: HostRegistrations {
                    wasi: false,
                    wasmedge_process: false,
                },
                statistics: StatisticsOptions {
                    count_instructions: false,
                    measure_cost: false,
                    measure_time: false,
                },
                max_memory_pages: 65536,
            },
        )
    }

    /// Creates a configuration holding the same options as `src`.
    pub fn copy_from(src: &Config) -> (r: WasmEdgeResult<Config>)
        ensures
            match r {
                Ok(c) => c@ == src@,
                Err(_) => false,
            },
    {
        let config = Config {
            compiler: src.compiler,
            standard: src.standard,
            extensions: src.extensions,
            host: src.host,
            statistics: src.statistics,
            max_memory_pages: src.max_memory_pages,
        };
        Ok(config)
    }

    /// Enables or disables the host registration of WASI.
    pub fn wasi(&mut self, enable: bool)
        ensures
            final(self)@ == (ConfigView { wasi: enable, ..old(self)@ }),
    {
        self.host.wasi = enable;
    }

    /// Checks whether the host registration of WASI is on.
    pub fn wasi_enabled(&self) -> (r: bool)
        ensures
            r == self@.wasi,
    {
        self.host.wasi
    }

    /// Enables or disables the host registration of the WasmEdge process module.
    pub fn wasmedge_process(&mut self, enable: bool)
        ensures
            final(self)@ == (ConfigView { wasmedge_process: enable, ..old(self)@ }),
    {
        self.host.wasmedge_process = enable;
    }

    /// Checks whether the host registration of the WasmEdge process module is on.
    pub fn wasmedge_process_enabled(&self) -> (r: bool)
        ensures
            r == self@.wasmedge_process,
    {
        self.host.wasmedge_process
    }

    /// Enables or disables import and export of mutable globals.
    pub fn mutable_globals(&mut self, enable: bool)
        ensures
            final(self)@ == (ConfigView { mutable_globals: enable, ..old(self)@ }),
    {
        self.standard.mutable_globals = enable;
    }

    /// Checks whether import and export of mutable globals is on.
    pub fn mutable_globals_enabled(&self) -> (r: bool)
        ensures
            r == self@.mutable_globals,
    {
        self.standard.mutable_globals
    }

    /// Enables or disables non-trapping float-to-int conversions.
    pub fn non_trap_conversions(&mut self, enable: bool)
        ensures
            final(self)@ == (ConfigView { non_trap_conversions: enable, ..old(self)@ }),
    {
        self.standard.non_trap_conversions = enable;
    }

    /// Checks whether non-trapping float-to-int conversions are on.
    pub fn non_trap_conversions_enabled(&self) -> (r: bool)
        ensures
            r == self@.non_trap_conversions,
    {
        self.standard.non_trap_conversions
    }

    /// Enables or disables the sign-extension operators.
    pub fn sign_extension_operators(&mut self, enable: bool)
        ensures
            final(self)@ == (ConfigView { sign_extension_operators: enable, ..old(self)@ }),
    {
        self.standard.sign_extension_operators = enable;
    }

    /// Checks whether the sign-extension operators are on.
    pub fn sign_extension_operators_enabled(&self) -> (r: bool)
        ensures
            r == self@.sign_extension_operators,
    {
        self.standard.sign_extension_operators
    }

    /// Enables or disables multiple return values.
    pub fn multi_value(&mut self, enable: bool)
        ensures
            final(self)@ == (ConfigView { multi_value: enable, ..old(self)@ }),
    {
        self.standard.multi_value = enable;
    }

    /// Checks whether multiple return values are on.
    pub fn multi_value_enabled(&self) -> (r: bool)
        ensures
            r == self@.multi_value,
    {
        self.standard.multi_value
    }

    /// Enables or disables bulk memory operations.
    pub fn bulk_memory_operations(&mut self, enable: bool)
        ensures
            final(self)@ == (ConfigView { bulk_memory_operations: enable, ..old(self)@ }),
    {
        self.standard.bulk_memory_operations = enable;
    }

    /// Checks whether bulk memory operations are on.
    pub fn bulk_memory_operations_enabled(&self) -> (r: bool)
        ensures
            r == self@.bulk_memory_operations,
    {
        self.standard.bulk_memory_operations
    }

    /// Enables or disables reference types.
    pub fn reference_types(&mut self, enable: bool)
        ensures
            final(self)@ == (ConfigView { reference_types: enable, ..old(self)@ }),
    {
        self.standard.reference_types = enable;
    }

    /// Checks whether reference types are on.
    pub fn reference_types_enabled(&self) -> (r: bool)
        ensures
            r == self@.reference_types,
    {
        self.standard.reference_types
    }

    /// Enables or disables SIMD.
    pub fn simd(&mut self, enable: bool)
        ensures
            final(self)@ == (ConfigView { simd: enable, ..old(self)@ }),
    {
        self.standard.simd = enable;
    }

    /// Checks whether SIMD is on.
    pub fn simd_enabled(&self) -> (r: bool)
        ensures
            r == self@.simd,
    {
        self.standard.simd
    }

    /// Enables or disables tail calls.
    pub fn tail_call(&mut self, enable: bool)
        ensures
            final(self)@ == (ConfigView { tail_call: enable, ..old(self)@ }),
    {
        self.extensions.tail_call = enable;
    }

    /// Checks whether tail calls are on.
    pub fn tail_call_enabled(&self) -> (r: bool)
        ensures
            r == self@.tail_call,
    {
        self.extensions.tail_call
    }

    /// Enables or disables annotations.
    pub fn annotations(&mut self, enable: bool)
        ensures
            final(self)@ == (ConfigView { annotations: enable, ..old(self)@ }),
    {
        self.extensions.annotations = enable;
    }

    /// Checks whether annotations are on.
    pub fn annotations_enabled(&self) -> (r: bool)
        ensures
            r == self@.annotations,
    {
        self.extensions.annotations
    }

    /// Enables or disables 64-bit memories.
    pub fn memory64(&mut self, enable: bool)
        ensures
            final(self)@ == (ConfigView { memory64: enable, ..old(self)@ }),
    {
        self.extensions.memory64 = enable;
    }

    /// Checks whether 64-bit memories are on.
    pub fn memory64_enabled(&self) -> (r: bool)
        ensures
            r == self@.memory64,
    {
        self.extensions.memory64
    }

    /// Enables or disables threads.
    pub fn threads(&mut self, enable: bool)
        ensures
            final(self)@ == (ConfigView { threads: enable, ..old(self)@ }),
    {
        self.extensions.threads = enable;
    }

    /// Checks whether threads are on.
    pub fn threads_enabled(&self) -> (r: bool)
        ensures
            r == self@.threads,
    {
        self.extensions.threads
    }

    /// Enables or disables exception handling.
    pub fn exception_handling(&mut self, enable: bool)
        ensures
            final(self)@ == (ConfigView { exception_handling: enable, ..old(self)@ }),
    {
        self.extensions.exception_handling = enable;
    }

    /// Checks whether exception handling is on.
    pub fn exception_handling_enabled(&self) -> (r: bool)
        ensures
            r == self@.exception_handling,
    {
        self.extensions.exception_handling
    }

    /// Enables or disables typed function references.
    pub fn function_references(&mut self, enable: bool)
        ensures
            final(self)@ == (ConfigView { function_references: enable, ..old(self)@ }),
    {
        self.extensions.function_references = enable;
    }

    /// Checks whether typed function references are on.
    pub fn function_references_enabled(&self) -> (r: bool)
        ensures
            r == self@.function_references,
    {
        self.extensions.function_references
    }

    /// Sets whether the ahead-of-time compiler dumps its IR.
    pub fn dump_ir(&mut self, enable: bool)
        ensures
            final(self)@ == (ConfigView { dump_ir: enable, ..old(self)@ }),
    {
        self.compiler.dump_ir = enable;
    }

    /// Checks whether the ahead-of-time compiler dumps its IR.
    pub fn dump_ir_enabled(&self) -> (r: bool)
        ensures
            r == self@.dump_ir,
    {
        self.compiler.dump_ir
    }

    /// Sets whether the ahead-of-time compiler emits a generic binary.
    pub fn generic_binary(&mut self, enable: bool)
        ensures
            final(self)@ == (ConfigView { generic_binary: enable, ..old(self)@ }),
    {
        self.compiler.generic_binary = enable;
    }

    /// Checks whether the ahead-of-time compiler emits a generic binary.
    pub fn generic_binary_enabled(&self) -> (r: bool)
        ensures
            r == self@.generic_binary,
    {
        self.compiler.generic_binary
    }

    /// Sets whether the ahead-of-time compiler emits interruptible code.
    pub fn interruptible(&mut self, enable: bool)
        ensures
            final(self)@ == (ConfigView { interruptible: enable, ..old(self)@ }),
    {
        self.compiler.interruptible = enable;
    }

    /// Checks whether the ahead-of-time compiler emits interruptible code.
    pub fn interruptible_enabled(&self) -> (r: bool)
        ensures
            r == self@.interruptible,
    {
        self.compiler.interruptible
    }

    /// Sets whether executed instructions are counted.
    pub fn count_instructions(&mut self, enable: bool)
        ensures
            final(self)@ == (ConfigView { count_instructions: enable, ..old(self)@ }),
    {
        self.statistics.count_instructions = enable;
    }

    /// Checks whether executed instructions are counted.
    pub fn is_instruction_counting(&self) -> (r: bool)
        ensures
            r == self@.count_instructions,
    {
        self.statistics.count_instructions
    }

    /// Sets whether execution cost is measured.
    pub fn measure_cost(&mut self, enable: bool)
        ensures
            final(self)@ == (ConfigView { measure_cost: enable, ..old(self)@ }),
    {
        self.statistics.measure_cost = enable;
    }

    /// Checks whether execution cost is measured.
    pub fn is_cost_measuring(&self) -> (r: bool)
        ensures
            r == self@.measure_cost,
    {
        self.statistics.measure_cost
    }

    /// Sets whether execution time is measured.
    pub fn measure_time(&mut self, enable: bool)
        ensures
            final(self)@ == (ConfigView { measure_time: enable, ..old(self)@ }),
    {
        self.statistics.measure_time = enable;
    }

    /// Checks whether execution time is measured.
    pub fn is_time_measuring(&self) -> (r: bool)
        ensures
            r == self@.measure_time,
    {
        self.statistics.measure_time
    }

    /// Sets the maximum number of memory pages (64 KiB each).
    pub fn set_max_memory_pages(&mut self, count: u32)
        ensures
            final(self)@ == (ConfigView { max_memory_pages: count, ..old(self)@ }),
    {
        self.max_memory_pages = count;
    }

    /// Returns the maximum number of memory pages.
    pub fn get_max_memory_pages(&self) -> (r: u32)
        ensures
            r == self@.max_memory_pages,
    {
        self.max_memory_pages
    }

    /// Sets the optimization level of the ahead-of-time compiler.
    pub fn set_aot_optimization_level(&mut self, opt_level: CompilerOptimizationLevel)
        ensures
            final(self)@ == (ConfigView { aot_optimization_level: opt_level, ..old(self)@ }),
    {
        self.compiler.aot_optimization_level = opt_level;
    }

    /// Returns the optimization level of the ahead-of-time compiler.
    pub fn get_aot_optimization_level(&self) -> (r: CompilerOptimizationLevel)
        ensures
            r == self@.aot_optimization_level,
    {
        self.compiler.aot_optimization_level
    }

    /// Sets the output format of the ahead-of-time compiler.
    pub fn set_aot_compiler_output_format(&mut self, format: CompilerOutputFormat)
        ensures
            final(self)@ == (ConfigView { aot_compiler_output_format: format, ..old(self)@ }),
    {
        self.compiler.aot_compiler_output_format = format;
    }

    /// Returns the output format of the ahead-of-time compiler.
    pub fn get_aot_compiler_output_format(&self) -> (r: CompilerOutputFormat)
        ensures
            r == self@.aot_compiler_output_format,
    {
        self.compiler.aot_compiler_output_format
    }
}

} // verus!
