//! The capability negotiation record: a flat record of independently
//! optional feature flags and descriptor lists, with a right-biased merge,
//! the all-absent default, and its wire encoding and decoding.

use vstd::prelude::*;

use crate::error::{FieldErrV, FieldError};
use crate::fields::{
    read_arr_field, read_bool_field, read_strs_field, spec_read_arr, spec_read_bool,
    spec_read_strs,
};
use crate::value::{
    arr_model, dup_items, dup_strs, obj_model, push_opt, spec_get, strs_model, strs_to_vals,
    vals_all_strs, vals_to_strs, SpecVal, Value,
};

verus! {

broadcast use vstd::std_specs::vec::group_vec_axioms, vstd::seq::group_seq_axioms;

/// Advertised adapter features: every field is independently optional, and
/// absence means "no opinion", never `false`.
#[derive(Debug, PartialEq)]
pub struct Capabilities {
    pub additional_module_columns: Option<Vec<Value>>,
    pub breakpoint_modes: Option<Vec<Value>>,
    pub completion_trigger_characters: Option<Vec<String>>,
    pub exception_breakpoint_filters: Option<Vec<Value>>,
    pub support_suspend_debuggee: Option<bool>,
    pub support_terminate_debuggee: Option<bool>,
    pub supported_checksum_algorithms: Option<Vec<String>>,
    pub supports_breakpoint_locations_request: Option<bool>,
    pub supports_cancel_request: Option<bool>,
    pub supports_clipboard_context: Option<bool>,
    pub supports_completions_request: Option<bool>,
    pub supports_conditional_breakpoints: Option<bool>,
    pub supports_configuration_done_request: Option<bool>,
    pub supports_data_breakpoint_bytes: Option<bool>,
    pub supports_data_breakpoints: Option<bool>,
    pub supports_delayed_stack_trace_loading: Option<bool>,
    pub supports_disassemble_request: Option<bool>,
    pub supports_evaluate_for_hovers: Option<bool>,
    pub supports_exception_filter_options: Option<bool>,
    pub supports_exception_info_request: Option<bool>,
    pub supports_exception_options: Option<bool>,
    pub supports_function_breakpoints: Option<bool>,
    pub supports_goto_targets_request: Option<bool>,
    pub supports_hit_conditional_breakpoints: Option<bool>,
    pub supports_instruction_breakpoints: Option<bool>,
    pub supports_loaded_sources_request: Option<bool>,
    pub supports_log_points: Option<bool>,
    pub supports_modules_request: Option<bool>,
    pub supports_read_memory_request: Option<bool>,
    pub supports_restart_frame: Option<bool>,
    pub supports_restart_request: Option<bool>,
    pub supports_set_expression: Option<bool>,
    pub supports_set_variable: Option<bool>,
    pub supports_single_thread_execution_requests: Option<bool>,
    pub supports_step_back: Option<bool>,
    pub supports_step_in_targets_request: Option<bool>,
    pub supports_stepping_granularity: Option<bool>,
    pub supports_terminate_request: Option<bool>,
    pub supports_terminate_threads_request: Option<bool>,
    pub supports_value_formatting_options: Option<bool>,
    pub supports_write_memory_request: Option<bool>,
    pub supports_ansistyling: Option<bool>,
}

/// Mathematical model of a capability record.
#[verifier::ext_equal]
pub struct CapabilitiesV {
    pub additional_module_columns: Option<Seq<SpecVal>>,
    pub breakpoint_modes: Option<Seq<SpecVal>>,
    pub completion_trigger_characters: Option<Seq<Seq<char>>>,
    pub exception_breakpoint_filters: Option<Seq<SpecVal>>,
    pub support_suspend_debuggee: Option<bool>,
    pub support_terminate_debuggee: Option<bool>,
    pub supported_checksum_algorithms: Option<Seq<Seq<char>>>,
    pub supports_breakpoint_locations_request: Option<bool>,
    pub supports_cancel_request: Option<bool>,
    pub supports_clipboard_context: Option<bool>,
    pub supports_completions_request: Option<bool>,
    pub supports_conditional_breakpoints: Option<bool>,
    pub supports_configuration_done_request: Option<bool>,
    pub supports_data_breakpoint_bytes: Option<bool>,
    pub supports_data_breakpoints: Option<bool>,
    pub supports_delayed_stack_trace_loading: Option<bool>,
    pub supports_disassemble_request: Option<bool>,
    pub supports_evaluate_for_hovers: Option<bool>,
    pub supports_exception_filter_options: Option<bool>,
    pub supports_exception_info_request: Option<bool>,
    pub supports_exception_options: Option<bool>,
    pub supports_function_breakpoints: Option<bool>,
    pub supports_goto_targets_request: Option<bool>,
    pub supports_hit_conditional_breakpoints: Option<bool>,
    pub supports_instruction_breakpoints: Option<bool>,
    pub supports_loaded_sources_request: Option<bool>,
    pub supports_log_points: Option<bool>,
    pub supports_modules_request: Option<bool>,
    pub supports_read_memory_request: Option<bool>,
    pub supports_restart_frame: Option<bool>,
    pub supports_restart_request: Option<bool>,
    pub supports_set_expression: Option<bool>,
    pub supports_set_variable: Option<bool>,
    pub supports_single_thread_execution_requests: Option<bool>,
    pub supports_step_back: Option<bool>,
    pub supports_step_in_targets_request: Option<bool>,
    pub supports_stepping_granularity: Option<bool>,
    pub supports_terminate_request: Option<bool>,
    pub supports_terminate_threads_request: Option<bool>,
    pub supports_value_formatting_options: Option<bool>,
    pub supports_write_memory_request: Option<bool>,
    pub supports_ansistyling: Option<bool>,
}

/// The model of an optional list-of-values field.
pub open spec fn opt_arr_model(o: Option<Vec<Value>>) -> Option<Seq<SpecVal>> {
    match o {
        Option::Some(v) => Option::Some(arr_model(v@)),
        Option::None => Option::None,
    }
}

/// The model of an optional list-of-strings field.
pub open spec fn opt_strs_model(o: Option<Vec<String>>) -> Option<Seq<Seq<char>>> {
    match o {
        Option::Some(v) => Option::Some(strs_model(v@)),
        Option::None => Option::None,
    }
}

/// An optional boolean as an optional wire value.
pub open spec fn opt_bool_val(o: Option<bool>) -> Option<SpecVal> {
    match o {
        Option::Some(b) => Option::Some(SpecVal::Bool(b)),
        Option::None => Option::None,
    }
}

/// An optional raw list as an optional wire value.
pub open spec fn opt_arr_val(o: Option<Seq<SpecVal>>) -> Option<SpecVal> {
    match o {
        Option::Some(v) => Option::Some(SpecVal::Arr(v)),
        Option::None => Option::None,
    }
}

/// An optional string list as an optional wire value.
pub open spec fn opt_strs_val(o: Option<Seq<Seq<char>>>) -> Option<SpecVal> {
    match o {
        Option::Some(v) => Option::Some(SpecVal::Arr(strs_to_vals(v))),
        Option::None => Option::None,
    }
}

impl View for Capabilities {
    type V = CapabilitiesV;

    open spec fn view(&self) -> CapabilitiesV {
        CapabilitiesV {
            additional_module_columns: opt_arr_model(self.additional_module_columns),
            breakpoint_modes: opt_arr_model(self.breakpoint_modes),
            completion_trigger_characters: opt_strs_model(self.completion_trigger_characters),
            exception_breakpoint_filters: opt_arr_model(self.exception_breakpoint_filters),
            support_suspend_debuggee: self.support_suspend_debuggee,
            support_terminate_debuggee: self.support_terminate_debuggee,
            supported_checksum_algorithms: opt_strs_model(self.supported_checksum_algorithms),
            supports_breakpoint_locations_request: self.supports_breakpoint_locations_request,
            supports_cancel_request: self.supports_cancel_request,
            supports_clipboard_context: self.supports_clipboard_context,
            supports_completions_request: self.supports_completions_request,
            supports_conditional_breakpoints: self.supports_conditional_breakpoints,
            supports_configuration_done_request: self.supports_configuration_done_request,
            supports_data_breakpoint_bytes: self.supports_data_breakpoint_bytes,
            supports_data_breakpoints: self.supports_data_breakpoints,
            supports_delayed_stack_trace_loading: self.supports_delayed_stack_trace_loading,
            supports_disassemble_request: self.supports_disassemble_request,
            supports_evaluate_for_hovers: self.supports_evaluate_for_hovers,
            supports_exception_filter_options: self.supports_exception_filter_options,
            supports_exception_info_request: self.supports_exception_info_request,
            supports_exception_options: self.supports_exception_options,
            supports_function_breakpoints: self.supports_function_breakpoints,
            supports_goto_targets_request: self.supports_goto_targets_request,
            supports_hit_conditional_breakpoints: self.supports_hit_conditional_breakpoints,
            supports_instruction_breakpoints: self.supports_instruction_breakpoints,
            supports_loaded_sources_request: self.supports_loaded_sources_request,
            supports_log_points: self.supports_log_points,
            supports_modules_request: self.supports_modules_request,
            supports_read_memory_request: self.supports_read_memory_request,
            supports_restart_frame: self.supports_restart_frame,
            supports_restart_request: self.supports_restart_request,
            supports_set_expression: self.supports_set_expression,
            supports_set_variable: self.supports_set_variable,
            supports_single_thread_execution_requests: self.supports_single_thread_execution_requests,
            supports_step_back: self.supports_step_back,
            supports_step_in_targets_request: self.supports_step_in_targets_request,
            supports_stepping_granularity: self.supports_stepping_granularity,
            supports_terminate_request: self.supports_terminate_request,
            supports_terminate_threads_request: self.supports_terminate_threads_request,
            supports_value_formatting_options: self.supports_value_formatting_options,
            supports_write_memory_request: self.supports_write_memory_request,
            supports_ansistyling: self.supports_ansistyling,
        }
    }
}

/// The all-absent record: nothing advertised, the zero of `spec_merge`.
pub open spec fn empty_caps() -> CapabilitiesV {
    CapabilitiesV {
        additional_module_columns: Option::None,
        breakpoint_modes: Option::None,
        completion_trigger_characters: Option::None,
        exception_breakpoint_filters: Option::None,
        support_suspend_debuggee: Option::None,
        support_terminate_debuggee: Option::None,
        supported_checksum_algorithms: Option::None,
        supports_breakpoint_locations_request: Option::None,
        supports_cancel_request: Option::None,
        supports_clipboard_context: Option::None,
        supports_completions_request: Option::None,
        supports_conditional_breakpoints: Option::None,
        supports_configuration_done_request: Option::None,
        supports_data_breakpoint_bytes: Option::None,
        supports_data_breakpoints: Option::None,
        supports_delayed_stack_trace_loading: Option::None,
        supports_disassemble_request: Option::None,
        supports_evaluate_for_hovers: Option::None,
        supports_exception_filter_options: Option::None,
        supports_exception_info_request: Option::None,
        supports_exception_options: Option::None,
        supports_function_breakpoints: Option::None,
        supports_goto_targets_request: Option::None,
        supports_hit_conditional_breakpoints: Option::None,
        supports_instruction_breakpoints: Option::None,
        supports_loaded_sources_request: Option::None,
        supports_log_points: Option::None,
        supports_modules_request: Option::None,
        supports_read_memory_request: Option::None,
        supports_restart_frame: Option::None,
        supports_restart_request: Option::None,
        supports_set_expression: Option::None,
        supports_set_variable: Option::None,
        supports_single_thread_execution_requests: Option::None,
        supports_step_back: Option::None,
        supports_step_in_targets_request: Option::None,
        supports_stepping_granularity: Option::None,
        supports_terminate_request: Option::None,
        supports_terminate_threads_request: Option::None,
        supports_value_formatting_options: Option::None,
        supports_write_memory_request: Option::None,
        supports_ansistyling: Option::None,
    }
}

impl Default for Capabilities {
    /// The record with every capability unknown.
    fn default() -> (r: Self)
        ensures
            r@ == empty_caps(),
    {
        let r = Capabilities {
            additional_module_columns: Option::None,
            breakpoint_modes: Option::None,
            completion_trigger_characters: Option::None,
            exception_breakpoint_filters: Option::None,
            support_suspend_debuggee: Option::None,
            support_terminate_debuggee: Option::None,
            supported_checksum_algorithms: Option::None,
            supports_breakpoint_locations_request: Option::None,
            supports_cancel_request: Option::None,
            supports_clipboard_context: Option::None,
            supports_completions_request: Option::None,
            supports_conditional_breakpoints: Option::None,
            supports_configuration_done_request: Option::None,
            supports_data_breakpoint_bytes: Option::None,
            supports_data_breakpoints: Option::None,
            supports_delayed_stack_trace_loading: Option::None,
            supports_disassemble_request: Option::None,
            supports_evaluate_for_hovers: Option::None,
            supports_exception_filter_options: Option::None,
            supports_exception_info_request: Option::None,
            supports_exception_options: Option::None,
            supports_function_breakpoints: Option::None,
            supports_goto_targets_request: Option::None,
            supports_hit_conditional_breakpoints: Option::None,
            supports_instruction_breakpoints: Option::None,
            supports_loaded_sources_request: Option::None,
            supports_log_points: Option::None,
            supports_modules_request: Option::None,
            supports_read_memory_request: Option::None,
            supports_restart_frame: Option::None,
            supports_restart_request: Option::None,
            supports_set_expression: Option::None,
            supports_set_variable: Option::None,
            supports_single_thread_execution_requests: Option::None,
            supports_step_back: Option::None,
            supports_step_in_targets_request: Option::None,
            supports_stepping_granularity: Option::None,
            supports_terminate_request: Option::None,
            supports_terminate_threads_request: Option::None,
            supports_value_formatting_options: Option::None,
            supports_write_memory_request: Option::None,
            supports_ansistyling: Option::None,
        };
        proof {
            assert(r@ =~= empty_caps());
        }
        r
    }
}

/// Right-biased field-wise merge: the update wins wherever it has an
/// opinion, the base is kept wherever it does not.
pub open spec fn spec_merge(b: CapabilitiesV, u: CapabilitiesV) -> CapabilitiesV {
    CapabilitiesV {
        additional_module_columns: if u.additional_module_columns is Some {
            u.additional_module_columns
        } else {
            b.additional_module_columns
        },
        breakpoint_modes: if u.breakpoint_modes is Some {
            u.breakpoint_modes
        } else {
            b.breakpoint_modes
        },
        completion_trigger_characters: if u.completion_trigger_characters is Some {
            u.completion_trigger_characters
        } else {
            b.completion_trigger_characters
        },
        exception_breakpoint_filters: if u.exception_breakpoint_filters is Some {
            u.exception_breakpoint_filters
        } else {
            b.exception_breakpoint_filters
        },
        support_suspend_debuggee: if u.support_suspend_debuggee is Some {
            u.support_suspend_debuggee
        } else {
            b.support_suspend_debuggee
        },
        support_terminate_debuggee: if u.support_terminate_debuggee is Some {
            u.support_terminate_debuggee
        } else {
            b.support_terminate_debuggee
        },
        supported_checksum_algorithms: if u.supported_checksum_algorithms is Some {
            u.supported_checksum_algorithms
        } else {
            b.supported_checksum_algorithms
        },
        supports_breakpoint_locations_request: if u.supports_breakpoint_locations_request is Some {
            u.supports_breakpoint_locations_request
        } else {
            b.supports_breakpoint_locations_request
        },
        supports_cancel_request: if u.supports_cancel_request is Some {
            u.supports_cancel_request
        } else {
            b.supports_cancel_request
        },
        supports_clipboard_context: if u.supports_clipboard_context is Some {
            u.supports_clipboard_context
        } else {
            b.supports_clipboard_context
        },
        supports_completions_request: if u.supports_completions_request is Some {
            u.supports_completions_request
        } else {
            b.supports_completions_request
        },
        supports_conditional_breakpoints: if u.supports_conditional_breakpoints is Some {
            u.supports_conditional_breakpoints
        } else {
            b.supports_conditional_breakpoints
        },
        supports_configuration_done_request: if u.supports_configuration_done_request is Some {
            u.supports_configuration_done_request
        } else {
            b.supports_configuration_done_request
        },
        supports_data_breakpoint_bytes: if u.supports_data_breakpoint_bytes is Some {
            u.supports_data_breakpoint_bytes
        } else {
            b.supports_data_breakpoint_bytes
        },
        supports_data_breakpoints: if u.supports_data_breakpoints is Some {
            u.supports_data_breakpoints
        } else {
            b.supports_data_breakpoints
        },
        supports_delayed_stack_trace_loading: if u.supports_delayed_stack_trace_loading is Some {
            u.supports_delayed_stack_trace_loading
        } else {
            b.supports_delayed_stack_trace_loading
        },
        supports_disassemble_request: if u.supports_disassemble_request is Some {
            u.supports_disassemble_request
        } else {
            b.supports_disassemble_request
        },
        supports_evaluate_for_hovers: if u.supports_evaluate_for_hovers is Some {
            u.supports_evaluate_for_hovers
        } else {
            b.supports_evaluate_for_hovers
        },
        supports_exception_filter_options: if u.supports_exception_filter_options is Some {
            u.supports_exception_filter_options
        } else {
            b.supports_exception_filter_options
        },
        supports_exception_info_request: if u.supports_exception_info_request is Some {
            u.supports_exception_info_request
        } else {
            b.supports_exception_info_request
        },
        supports_exception_options: if u.supports_exception_options is Some {
            u.supports_exception_options
        } else {
            b.supports_exception_options
        },
        supports_function_breakpoints: if u.supports_function_breakpoints is Some {
            u.supports_function_breakpoints
        } else {
            b.supports_function_breakpoints
        },
        supports_goto_targets_request: if u.supports_goto_targets_request is Some {
            u.supports_goto_targets_request
        } else {
            b.supports_goto_targets_request
        },
        supports_hit_conditional_breakpoints: if u.supports_hit_conditional_breakpoints is Some {
            u.supports_hit_conditional_breakpoints
        } else {
            b.supports_hit_conditional_breakpoints
        },
        supports_instruction_breakpoints: if u.supports_instruction_breakpoints is Some {
            u.supports_instruction_breakpoints
        } else {
            b.supports_instruction_breakpoints
        },
        supports_loaded_sources_request: if u.supports_loaded_sources_request is Some {
            u.supports_loaded_sources_request
        } else {
            b.supports_loaded_sources_request
        },
        supports_log_points: if u.supports_log_points is Some {
            u.supports_log_points
        } else {
            b.supports_log_points
        },
        supports_modules_request: if u.supports_modules_request is Some {
            u.supports_modules_request
        } else {
            b.supports_modules_request
        },
        supports_read_memory_request: if u.supports_read_memory_request is Some {
            u.supports_read_memory_request
        } else {
            b.supports_read_memory_request
        },
        supports_restart_frame: if u.supports_restart_frame is Some {
            u.supports_restart_frame
        } else {
            b.supports_restart_frame
        },
        supports_restart_request: if u.supports_restart_request is Some {
            u.supports_restart_request
        } else {
            b.supports_restart_request
        },
        supports_set_expression: if u.supports_set_expression is Some {
            u.supports_set_expression
        } else {
            b.supports_set_expression
        },
        supports_set_variable: if u.supports_set_variable is Some {
            u.supports_set_variable
        } else {
            b.supports_set_variable
        },
        supports_single_thread_execution_requests: if u.supports_single_thread_execution_requests is Some {
            u.supports_single_thread_execution_requests
        } else {
            b.supports_single_thread_execution_requests
        },
        supports_step_back: if u.supports_step_back is Some {
            u.supports_step_back
        } else {
            b.supports_step_back
        },
        supports_step_in_targets_request: if u.supports_step_in_targets_request is Some {
            u.supports_step_in_targets_request
        } else {
            b.supports_step_in_targets_request
        },
        supports_stepping_granularity: if u.supports_stepping_granularity is Some {
            u.supports_stepping_granularity
        } else {
            b.supports_stepping_granularity
        },
        supports_terminate_request: if u.supports_terminate_request is Some {
            u.supports_terminate_request
        } else {
            b.supports_terminate_request
        },
        supports_terminate_threads_request: if u.supports_terminate_threads_request is Some {
            u.supports_terminate_threads_request
        } else {
            b.supports_terminate_threads_request
        },
        supports_value_formatting_options: if u.supports_value_formatting_options is Some {
            u.supports_value_formatting_options
        } else {
            b.supports_value_formatting_options
        },
        supports_write_memory_request: if u.supports_write_memory_request is Some {
            u.supports_write_memory_request
        } else {
            b.supports_write_memory_request
        },
        supports_ansistyling: if u.supports_ansistyling is Some {
            u.supports_ansistyling
        } else {
            b.supports_ansistyling
        },
    }
}

/// The update's field if present, else the base's.
fn pick_bool(u: Option<bool>, b: Option<bool>) -> (r: Option<bool>)
    ensures
        r == if u is Some {
            u
        } else {
            b
        },
{
    match u {
        Option::Some(x) => Option::Some(x),
        Option::None => b,
    }
}

/// The update's list if present, else a copy of the base's.
fn pick_arr(u: Option<Vec<Value>>, b: &Option<Vec<Value>>) -> (r: Option<Vec<Value>>)
    ensures
        opt_arr_model(r) == if u is Some {
            opt_arr_model(u)
        } else {
            opt_arr_model(*b)
        },
{
    match u {
        Option::Some(v) => Option::Some(v),
        Option::None => match b {
            Option::Some(v) => Option::Some(dup_items(v)),
            Option::None => Option::None,
        },
    }
}

/// The update's string list if present, else a copy of the base's.
fn pick_strs(u: Option<Vec<String>>, b: &Option<Vec<String>>) -> (r: Option<Vec<String>>)
    ensures
        opt_strs_model(r) == if u is Some {
            opt_strs_model(u)
        } else {
            opt_strs_model(*b)
        },
{
    match u {
        Option::Some(v) => Option::Some(v),
        Option::None => match b {
            Option::Some(v) => Option::Some(dup_strs(v)),
            Option::None => Option::None,
        },
    }
}

impl Capabilities {
    /// Merges an incoming capability update over this baseline. Every field
    /// present in `other` replaces the baseline's value; every field absent
    /// in `other` leaves the baseline's value standing.
    #[verifier::rlimit(50)]
    pub fn merge(&self, other: Capabilities) -> (r: Capabilities)
        ensures
            r@ == spec_merge(self@, other@),
    {
        let ghost u = other@;
        let Capabilities {
            additional_module_columns: u_additional_module_columns,
            breakpoint_modes: u_breakpoint_modes,
            completion_trigger_characters: u_completion_trigger_characters,
            exception_breakpoint_filters: u_exception_breakpoint_filters,
            support_suspend_debuggee: u_support_suspend_debuggee,
            support_terminate_debuggee: u_support_terminate_debuggee,
            supported_checksum_algorithms: u_supported_checksum_algorithms,
            supports_breakpoint_locations_request: u_supports_breakpoint_locations_request,
            supports_cancel_request: u_supports_cancel_request,
            supports_clipboard_context: u_supports_clipboard_context,
            supports_completions_request: u_supports_completions_request,
            supports_conditional_breakpoints: u_supports_conditional_breakpoints,
            supports_configuration_done_request: u_supports_configuration_done_request,
            supports_data_breakpoint_bytes: u_supports_data_breakpoint_bytes,
            supports_data_breakpoints: u_supports_data_breakpoints,
            supports_delayed_stack_trace_loading: u_supports_delayed_stack_trace_loading,
            supports_disassemble_request: u_supports_disassemble_request,
            supports_evaluate_for_hovers: u_supports_evaluate_for_hovers,
            supports_exception_filter_options: u_supports_exception_filter_options,
            supports_exception_info_request: u_supports_exception_info_request,
            supports_exception_options: u_supports_exception_options,
            supports_function_breakpoints: u_supports_function_breakpoints,
            supports_goto_targets_request: u_supports_goto_targets_request,
            supports_hit_conditional_breakpoints: u_supports_hit_conditional_breakpoints,
            supports_instruction_breakpoints: u_supports_instruction_breakpoints,
            supports_loaded_sources_request: u_supports_loaded_sources_request,
            supports_log_points: u_supports_log_points,
            supports_modules_request: u_supports_modules_request,
            supports_read_memory_request: u_supports_read_memory_request,
            supports_restart_frame: u_supports_restart_frame,
            supports_restart_request: u_supports_restart_request,
            supports_set_expression: u_supports_set_expression,
            supports_set_variable: u_supports_set_variable,
            supports_single_thread_execution_requests: u_supports_single_thread_execution_requests,
            supports_step_back: u_supports_step_back,
            supports_step_in_targets_request: u_supports_step_in_targets_request,
            supports_stepping_granularity: u_supports_stepping_granularity,
            supports_terminate_request: u_supports_terminate_request,
            supports_terminate_threads_request: u_supports_terminate_threads_request,
            supports_value_formatting_options: u_supports_value_formatting_options,
            supports_write_memory_request: u_supports_write_memory_request,
            supports_ansistyling: u_supports_ansistyling,
        } = other;
        let r = Capabilities {
            additional_module_columns: pick_arr(u_additional_module_columns, &self.additional_module_columns),
            breakpoint_modes: pick_arr(u_breakpoint_modes, &self.breakpoint_modes),
            completion_trigger_characters: pick_strs(u_completion_trigger_characters, &self.completion_trigger_characters),
            exception_breakpoint_filters: pick_arr(u_exception_breakpoint_filters, &self.exception_breakpoint_filters),
            support_suspend_debuggee: pick_bool(u_support_suspend_debuggee, self.support_suspend_debuggee),
            support_terminate_debuggee: pick_bool(u_support_terminate_debuggee, self.support_terminate_debuggee),
            supported_checksum_algorithms: pick_strs(u_supported_checksum_algorithms, &self.supported_checksum_algorithms),
            supports_breakpoint_locations_request: pick_bool(u_supports_breakpoint_locations_request, self.supports_breakpoint_locations_request),
            supports_cancel_request: pick_bool(u_supports_cancel_request, self.supports_cancel_request),
            supports_clipboard_context: pick_bool(u_supports_clipboard_context, self.supports_clipboard_context),
            supports_completions_request: pick_bool(u_supports_completions_request, self.supports_completions_request),
            supports_conditional_breakpoints: pick_bool(u_supports_conditional_breakpoints, self.supports_conditional_breakpoints),
            supports_configuration_done_request: pick_bool(u_supports_configuration_done_request, self.supports_configuration_done_request),
            supports_data_breakpoint_bytes: pick_bool(u_supports_data_breakpoint_bytes, self.supports_data_breakpoint_bytes),
            supports_data_breakpoints: pick_bool(u_supports_data_breakpoints, self.supports_data_breakpoints),
            supports_delayed_stack_trace_loading: pick_bool(u_supports_delayed_stack_trace_loading, self.supports_delayed_stack_trace_loading),
            supports_disassemble_request: pick_bool(u_supports_disassemble_request, self.supports_disassemble_request),
            supports_evaluate_for_hovers: pick_bool(u_supports_evaluate_for_hovers, self.supports_evaluate_for_hovers),
            supports_exception_filter_options: pick_bool(u_supports_exception_filter_options, self.supports_exception_filter_options),
            supports_exception_info_request: pick_bool(u_supports_exception_info_request, self.supports_exception_info_request),
            supports_exception_options: pick_bool(u_supports_exception_options, self.supports_exception_options),
            supports_function_breakpoints: pick_bool(u_supports_function_breakpoints, self.supports_function_breakpoints),
            supports_goto_targets_request: pick_bool(u_supports_goto_targets_request, self.supports_goto_targets_request),
            supports_hit_conditional_breakpoints: pick_bool(u_supports_hit_conditional_breakpoints, self.supports_hit_conditional_breakpoints),
            supports_instruction_breakpoints: pick_bool(u_supports_instruction_breakpoints, self.supports_instruction_breakpoints),
            supports_loaded_sources_request: pick_bool(u_supports_loaded_sources_request, self.supports_loaded_sources_request),
            supports_log_points: pick_bool(u_supports_log_points, self.supports_log_points),
            supports_modules_request: pick_bool(u_supports_modules_request, self.supports_modules_request),
            supports_read_memory_request: pick_bool(u_supports_read_memory_request, self.supports_read_memory_request),
            supports_restart_frame: pick_bool(u_supports_restart_frame, self.supports_restart_frame),
            supports_restart_request: pick_bool(u_supports_restart_request, self.supports_restart_request),
            supports_set_expression: pick_bool(u_supports_set_expression, self.supports_set_expression),
            supports_set_variable: pick_bool(u_supports_set_variable, self.supports_set_variable),
            supports_single_thread_execution_requests: pick_bool(u_supports_single_thread_execution_requests, self.supports_single_thread_execution_requests),
            supports_step_back: pick_bool(u_supports_step_back, self.supports_step_back),
            supports_step_in_targets_request: pick_bool(u_supports_step_in_targets_request, self.supports_step_in_targets_request),
            supports_stepping_granularity: pick_bool(u_supports_stepping_granularity, self.supports_stepping_granularity),
            supports_terminate_request: pick_bool(u_supports_terminate_request, self.supports_terminate_request),
            supports_terminate_threads_request: pick_bool(u_supports_terminate_threads_request, self.supports_terminate_threads_request),
            supports_value_formatting_options: pick_bool(u_supports_value_formatting_options, self.supports_value_formatting_options),
            supports_write_memory_request: pick_bool(u_supports_write_memory_request, self.supports_write_memory_request),
            supports_ansistyling: pick_bool(u_supports_ansistyling, self.supports_ansistyling),
        };
        proof {
            assert(r@ =~= spec_merge(self@, u));
        }
        r
    }
}

/// The merge is right-biased independently in every field: the merged
/// record takes the update's field wherever the update's field is present,
/// and the base's field wherever it is absent.
pub proof fn lemma_merge_right_biased(b: CapabilitiesV, u: CapabilitiesV)
    ensures
        spec_merge(b, u).additional_module_columns == if u.additional_module_columns is Some {
            u.additional_module_columns
        } else {
            b.additional_module_columns
        },
        spec_merge(b, u).breakpoint_modes == if u.breakpoint_modes is Some {
            u.breakpoint_modes
        } else {
            b.breakpoint_modes
        },
        spec_merge(b, u).completion_trigger_characters == if u.completion_trigger_characters is Some {
            u.completion_trigger_characters
        } else {
            b.completion_trigger_characters
        },
        spec_merge(b, u).exception_breakpoint_filters == if u.exception_breakpoint_filters is Some {
            u.exception_breakpoint_filters
        } else {
            b.exception_breakpoint_filters
        },
        spec_merge(b, u).support_suspend_debuggee == if u.support_suspend_debuggee is Some {
            u.support_suspend_debuggee
        } else {
            b.support_suspend_debuggee
        },
        spec_merge(b, u).support_terminate_debuggee == if u.support_terminate_debuggee is Some {
            u.support_terminate_debuggee
        } else {
            b.support_terminate_debuggee
        },
        spec_merge(b, u).supported_checksum_algorithms == if u.supported_checksum_algorithms is Some {
            u.supported_checksum_algorithms
        } else {
            b.supported_checksum_algorithms
        },
        spec_merge(b, u).supports_breakpoint_locations_request == if u.supports_breakpoint_locations_request is Some {
            u.supports_breakpoint_locations_request
        } else {
            b.supports_breakpoint_locations_request
        },
        spec_merge(b, u).supports_cancel_request == if u.supports_cancel_request is Some {
            u.supports_cancel_request
        } else {
            b.supports_cancel_request
        },
        spec_merge(b, u).supports_clipboard_context == if u.supports_clipboard_context is Some {
            u.supports_clipboard_context
        } else {
            b.supports_clipboard_context
        },
        spec_merge(b, u).supports_completions_request == if u.supports_completions_request is Some {
            u.supports_completions_request
        } else {
            b.supports_completions_request
        },
        spec_merge(b, u).supports_conditional_breakpoints == if u.supports_conditional_breakpoints is Some {
            u.supports_conditional_breakpoints
        } else {
            b.supports_conditional_breakpoints
        },
        spec_merge(b, u).supports_configuration_done_request == if u.supports_configuration_done_request is Some {
            u.supports_configuration_done_request
        } else {
            b.supports_configuration_done_request
        },
        spec_merge(b, u).supports_data_breakpoint_bytes == if u.supports_data_breakpoint_bytes is Some {
            u.supports_data_breakpoint_bytes
        } else {
            b.supports_data_breakpoint_bytes
        },
        spec_merge(b, u).supports_data_breakpoints == if u.supports_data_breakpoints is Some {
            u.supports_data_breakpoints
        } else {
            b.supports_data_breakpoints
        },
        spec_merge(b, u).supports_delayed_stack_trace_loading == if u.supports_delayed_stack_trace_loading is Some {
            u.supports_delayed_stack_trace_loading
        } else {
            b.supports_delayed_stack_trace_loading
        },
        spec_merge(b, u).supports_disassemble_request == if u.supports_disassemble_request is Some {
            u.supports_disassemble_request
        } else {
            b.supports_disassemble_request
        },
        spec_merge(b, u).supports_evaluate_for_hovers == if u.supports_evaluate_for_hovers is Some {
            u.supports_evaluate_for_hovers
        } else {
            b.supports_evaluate_for_hovers
        },
        spec_merge(b, u).supports_exception_filter_options == if u.supports_exception_filter_options is Some {
            u.supports_exception_filter_options
        } else {
            b.supports_exception_filter_options
        },
        spec_merge(b, u).supports_exception_info_request == if u.supports_exception_info_request is Some {
            u.supports_exception_info_request
        } else {
            b.supports_exception_info_request
        },
        spec_merge(b, u).supports_exception_options == if u.supports_exception_options is Some {
            u.supports_exception_options
        } else {
            b.supports_exception_options
        },
        spec_merge(b, u).supports_function_breakpoints == if u.supports_function_breakpoints is Some {
            u.supports_function_breakpoints
        } else {
            b.supports_function_breakpoints
        },
        spec_merge(b, u).supports_goto_targets_request == if u.supports_goto_targets_request is Some {
            u.supports_goto_targets_request
        } else {
            b.supports_goto_targets_request
        },
        spec_merge(b, u).supports_hit_conditional_breakpoints == if u.supports_hit_conditional_breakpoints is Some {
            u.supports_hit_conditional_breakpoints
        } else {
            b.supports_hit_conditional_breakpoints
        },
        spec_merge(b, u).supports_instruction_breakpoints == if u.supports_instruction_breakpoints is Some {
            u.supports_instruction_breakpoints
        } else {
            b.supports_instruction_breakpoints
        },
        spec_merge(b, u).supports_loaded_sources_request == if u.supports_loaded_sources_request is Some {
            u.supports_loaded_sources_request
        } else {
            b.supports_loaded_sources_request
        },
        spec_merge(b, u).supports_log_points == if u.supports_log_points is Some {
            u.supports_log_points
        } else {
            b.supports_log_points
        },
        spec_merge(b, u).supports_modules_request == if u.supports_modules_request is Some {
            u.supports_modules_request
        } else {
            b.supports_modules_request
        },
        spec_merge(b, u).supports_read_memory_request == if u.supports_read_memory_request is Some {
            u.supports_read_memory_request
        } else {
            b.supports_read_memory_request
        },
        spec_merge(b, u).supports_restart_frame == if u.supports_restart_frame is Some {
            u.supports_restart_frame
        } else {
            b.supports_restart_frame
        },
        spec_merge(b, u).supports_restart_request == if u.supports_restart_request is Some {
            u.supports_restart_request
        } else {
            b.supports_restart_request
        },
        spec_merge(b, u).supports_set_expression == if u.supports_set_expression is Some {
            u.supports_set_expression
        } else {
            b.supports_set_expression
        },
        spec_merge(b, u).supports_set_variable == if u.supports_set_variable is Some {
            u.supports_set_variable
        } else {
            b.supports_set_variable
        },
        spec_merge(b, u).supports_single_thread_execution_requests == if u.supports_single_thread_execution_requests is Some {
            u.supports_single_thread_execution_requests
        } else {
            b.supports_single_thread_execution_requests
        },
        spec_merge(b, u).supports_step_back == if u.supports_step_back is Some {
            u.supports_step_back
        } else {
            b.supports_step_back
        },
        spec_merge(b, u).supports_step_in_targets_request == if u.supports_step_in_targets_request is Some {
            u.supports_step_in_targets_request
        } else {
            b.supports_step_in_targets_request
        },
        spec_merge(b, u).supports_stepping_granularity == if u.supports_stepping_granularity is Some {
            u.supports_stepping_granularity
        } else {
            b.supports_stepping_granularity
        },
        spec_merge(b, u).supports_terminate_request == if u.supports_terminate_request is Some {
            u.supports_terminate_request
        } else {
            b.supports_terminate_request
        },
        spec_merge(b, u).supports_terminate_threads_request == if u.supports_terminate_threads_request is Some {
            u.supports_terminate_threads_request
        } else {
            b.supports_terminate_threads_request
        },
        spec_merge(b, u).supports_value_formatting_options == if u.supports_value_formatting_options is Some {
            u.supports_value_formatting_options
        } else {
            b.supports_value_formatting_options
        },
        spec_merge(b, u).supports_write_memory_request == if u.supports_write_memory_request is Some {
            u.supports_write_memory_request
        } else {
            b.supports_write_memory_request
        },
        spec_merge(b, u).supports_ansistyling == if u.supports_ansistyling is Some {
            u.supports_ansistyling
        } else {
            b.supports_ansistyling
        },
{
}

/// Merging an update with everything absent changes nothing.
pub proof fn lemma_merge_identity(b: CapabilitiesV)
    ensures
        spec_merge(b, empty_caps()) == b,
{
    assert(spec_merge(b, empty_caps()) =~= b);
}

/// One canonical-order slice of the capability wire entries.
pub open spec fn caps_entries_g0(e: Seq<(Seq<char>, SpecVal)>, c: CapabilitiesV) -> Seq<
    (Seq<char>, SpecVal),
> {
    let e = e;
    let e = push_opt(e, "additionalModuleColumns"@, opt_arr_val(c.additional_module_columns));
    let e = push_opt(e, "breakpointModes"@, opt_arr_val(c.breakpoint_modes));
    let e = push_opt(e, "completionTriggerCharacters"@, opt_strs_val(c.completion_trigger_characters));
    let e = push_opt(e, "exceptionBreakpointFilters"@, opt_arr_val(c.exception_breakpoint_filters));
    let e = push_opt(e, "supportSuspendDebuggee"@, opt_bool_val(c.support_suspend_debuggee));
    let e = push_opt(e, "supportTerminateDebuggee"@, opt_bool_val(c.support_terminate_debuggee));
    let e = push_opt(e, "supportedChecksumAlgorithms"@, opt_strs_val(c.supported_checksum_algorithms));
    e
}

/// One canonical-order slice of the capability wire entries.
pub open spec fn caps_entries_g1(e: Seq<(Seq<char>, SpecVal)>, c: CapabilitiesV) -> Seq<
    (Seq<char>, SpecVal),
> {
    let e = e;
    let e = push_opt(e, "supportsBreakpointLocationsRequest"@, opt_bool_val(c.supports_breakpoint_locations_request));
    let e = push_opt(e, "supportsCancelRequest"@, opt_bool_val(c.supports_cancel_request));
    let e = push_opt(e, "supportsClipboardContext"@, opt_bool_val(c.supports_clipboard_context));
    let e = push_opt(e, "supportsCompletionsRequest"@, opt_bool_val(c.supports_completions_request));
    let e = push_opt(e, "supportsConditionalBreakpoints"@, opt_bool_val(c.supports_conditional_breakpoints));
    let e = push_opt(e, "supportsConfigurationDoneRequest"@, opt_bool_val(c.supports_configuration_done_request));
    let e = push_opt(e, "supportsDataBreakpointBytes"@, opt_bool_val(c.supports_data_breakpoint_bytes));
    e
}

/// One canonical-order slice of the capability wire entries.
pub open spec fn caps_entries_g2(e: Seq<(Seq<char>, SpecVal)>, c: CapabilitiesV) -> Seq<
    (Seq<char>, SpecVal),
> {
    let e = e;
    let e = push_opt(e, "supportsDataBreakpoints"@, opt_bool_val(c.supports_data_breakpoints));
    let e = push_opt(e, "supportsDelayedStackTraceLoading"@, opt_bool_val(c.supports_delayed_stack_trace_loading));
    let e = push_opt(e, "supportsDisassembleRequest"@, opt_bool_val(c.supports_disassemble_request));
    let e = push_opt(e, "supportsEvaluateForHovers"@, opt_bool_val(c.supports_evaluate_for_hovers));
    let e = push_opt(e, "supportsExceptionFilterOptions"@, opt_bool_val(c.supports_exception_filter_options));
    let e = push_opt(e, "supportsExceptionInfoRequest"@, opt_bool_val(c.supports_exception_info_request));
    let e = push_opt(e, "supportsExceptionOptions"@, opt_bool_val(c.supports_exception_options));
    e
}

/// One canonical-order slice of the capability wire entries.
pub open spec fn caps_entries_g3(e: Seq<(Seq<char>, SpecVal)>, c: CapabilitiesV) -> Seq<
    (Seq<char>, SpecVal),
> {
    let e = e;
    let e = push_opt(e, "supportsFunctionBreakpoints"@, opt_bool_val(c.supports_function_breakpoints));
    let e = push_opt(e, "supportsGotoTargetsRequest"@, opt_bool_val(c.supports_goto_targets_request));
    let e = push_opt(e, "supportsHitConditionalBreakpoints"@, opt_bool_val(c.supports_hit_conditional_breakpoints));
    let e = push_opt(e, "supportsInstructionBreakpoints"@, opt_bool_val(c.supports_instruction_breakpoints));
    let e = push_opt(e, "supportsLoadedSourcesRequest"@, opt_bool_val(c.supports_loaded_sources_request));
    let e = push_opt(e, "supportsLogPoints"@, opt_bool_val(c.supports_log_points));
    let e = push_opt(e, "supportsModulesRequest"@, opt_bool_val(c.supports_modules_request));
    e
}

/// One canonical-order slice of the capability wire entries.
pub open spec fn caps_entries_g4(e: Seq<(Seq<char>, SpecVal)>, c: CapabilitiesV) -> Seq<
    (Seq<char>, SpecVal),
> {
    let e = e;
    let e = push_opt(e, "supportsReadMemoryRequest"@, opt_bool_val(c.supports_read_memory_request));
    let e = push_opt(e, "supportsRestartFrame"@, opt_bool_val(c.supports_restart_frame));
    let e = push_opt(e, "supportsRestartRequest"@, opt_bool_val(c.supports_restart_request));
    let e = push_opt(e, "supportsSetExpression"@, opt_bool_val(c.supports_set_expression));
    let e = push_opt(e, "supportsSetVariable"@, opt_bool_val(c.supports_set_variable));
    let e = push_opt(e, "supportsSingleThreadExecutionRequests"@, opt_bool_val(c.supports_single_thread_execution_requests));
    let e = push_opt(e, "supportsStepBack"@, opt_bool_val(c.supports_step_back));
    e
}

/// One canonical-order slice of the capability wire entries.
pub open spec fn caps_entries_g5(e: Seq<(Seq<char>, SpecVal)>, c: CapabilitiesV) -> Seq<
    (Seq<char>, SpecVal),
> {
    let e = e;
    let e = push_opt(e, "supportsStepInTargetsRequest"@, opt_bool_val(c.supports_step_in_targets_request));
    let e = push_opt(e, "supportsSteppingGranularity"@, opt_bool_val(c.supports_stepping_granularity));
    let e = push_opt(e, "supportsTerminateRequest"@, opt_bool_val(c.supports_terminate_request));
    let e = push_opt(e, "supportsTerminateThreadsRequest"@, opt_bool_val(c.supports_terminate_threads_request));
    let e = push_opt(e, "supportsValueFormattingOptions"@, opt_bool_val(c.supports_value_formatting_options));
    let e = push_opt(e, "supportsWriteMemoryRequest"@, opt_bool_val(c.supports_write_memory_request));
    let e = push_opt(e, "supportsAnsistyling"@, opt_bool_val(c.supports_ansistyling));
    e
}

/// The wire entries of a capability record: each present field, in
/// canonical order, under its lower-camel-case wire key.
pub open spec fn spec_caps_entries(c: CapabilitiesV) -> Seq<(Seq<char>, SpecVal)> {
    let e = Seq::<(Seq<char>, SpecVal)>::empty();
    let e = caps_entries_g0(e, c);
    let e = caps_entries_g1(e, c);
    let e = caps_entries_g2(e, c);
    let e = caps_entries_g3(e, c);
    let e = caps_entries_g4(e, c);
    let e = caps_entries_g5(e, c);
    e
}

/// The first field of a record that fails to read as a capability, if any.
pub open spec fn spec_caps_first_err(entries: Seq<(Seq<char>, SpecVal)>) -> Option<FieldErrV> {
    if spec_read_arr(entries, "additionalModuleColumns"@) is Err {
        Option::Some(spec_read_arr(entries, "additionalModuleColumns"@)->Err_0)
    } else if spec_read_arr(entries, "breakpointModes"@) is Err {
        Option::Some(spec_read_arr(entries, "breakpointModes"@)->Err_0)
    } else if spec_read_strs(entries, "completionTriggerCharacters"@) is Err {
        Option::Some(spec_read_strs(entries, "completionTriggerCharacters"@)->Err_0)
    } else if spec_read_arr(entries, "exceptionBreakpointFilters"@) is Err {
        Option::Some(spec_read_arr(entries, "exceptionBreakpointFilters"@)->Err_0)
    } else if spec_read_bool(entries, "supportSuspendDebuggee"@) is Err {
        Option::Some(spec_read_bool(entries, "supportSuspendDebuggee"@)->Err_0)
    } else if spec_read_bool(entries, "supportTerminateDebuggee"@) is Err {
        Option::Some(spec_read_bool(entries, "supportTerminateDebuggee"@)->Err_0)
    } else if spec_read_strs(entries, "supportedChecksumAlgorithms"@) is Err {
        Option::Some(spec_read_strs(entries, "supportedChecksumAlgorithms"@)->Err_0)
    } else if spec_read_bool(entries, "supportsBreakpointLocationsRequest"@) is Err {
        Option::Some(spec_read_bool(entries, "supportsBreakpointLocationsRequest"@)->Err_0)
    } else if spec_read_bool(entries, "supportsCancelRequest"@) is Err {
        Option::Some(spec_read_bool(entries, "supportsCancelRequest"@)->Err_0)
    } else if spec_read_bool(entries, "supportsClipboardContext"@) is Err {
        Option::Some(spec_read_bool(entries, "supportsClipboardContext"@)->Err_0)
    } else if spec_read_bool(entries, "supportsCompletionsRequest"@) is Err {
        Option::Some(spec_read_bool(entries, "supportsCompletionsRequest"@)->Err_0)
    } else if spec_read_bool(entries, "supportsConditionalBreakpoints"@) is Err {
        Option::Some(spec_read_bool(entries, "supportsConditionalBreakpoints"@)->Err_0)
    } else if spec_read_bool(entries, "supportsConfigurationDoneRequest"@) is Err {
        Option::Some(spec_read_bool(entries, "supportsConfigurationDoneRequest"@)->Err_0)
    } else if spec_read_bool(entries, "supportsDataBreakpointBytes"@) is Err {
        Option::Some(spec_read_bool(entries, "supportsDataBreakpointBytes"@)->Err_0)
    } else if spec_read_bool(entries, "supportsDataBreakpoints"@) is Err {
        Option::Some(spec_read_bool(entries, "supportsDataBreakpoints"@)->Err_0)
    } else if spec_read_bool(entries, "supportsDelayedStackTraceLoading"@) is Err {
        Option::Some(spec_read_bool(entries, "supportsDelayedStackTraceLoading"@)->Err_0)
    } else if spec_read_bool(entries, "supportsDisassembleRequest"@) is Err {
        Option::Some(spec_read_bool(entries, "supportsDisassembleRequest"@)->Err_0)
    } else if spec_read_bool(entries, "supportsEvaluateForHovers"@) is Err {
        Option::Some(spec_read_bool(entries, "supportsEvaluateForHovers"@)->Err_0)
    } else if spec_read_bool(entries, "supportsExceptionFilterOptions"@) is Err {
        Option::Some(spec_read_bool(entries, "supportsExceptionFilterOptions"@)->Err_0)
    } else if spec_read_bool(entries, "supportsExceptionInfoRequest"@) is Err {
        Option::Some(spec_read_bool(entries, "supportsExceptionInfoRequest"@)->Err_0)
    } else if spec_read_bool(entries, "supportsExceptionOptions"@) is Err {
        Option::Some(spec_read_bool(entries, "supportsExceptionOptions"@)->Err_0)
    } else if spec_read_bool(entries, "supportsFunctionBreakpoints"@) is Err {
        Option::Some(spec_read_bool(entries, "supportsFunctionBreakpoints"@)->Err_0)
    } else if spec_read_bool(entries, "supportsGotoTargetsRequest"@) is Err {
        Option::Some(spec_read_bool(entries, "supportsGotoTargetsRequest"@)->Err_0)
    } else if spec_read_bool(entries, "supportsHitConditionalBreakpoints"@) is Err {
        Option::Some(spec_read_bool(entries, "supportsHitConditionalBreakpoints"@)->Err_0)
    } else if spec_read_bool(entries, "supportsInstructionBreakpoints"@) is Err {
        Option::Some(spec_read_bool(entries, "supportsInstructionBreakpoints"@)->Err_0)
    } else if spec_read_bool(entries, "supportsLoadedSourcesRequest"@) is Err {
        Option::Some(spec_read_bool(entries, "supportsLoadedSourcesRequest"@)->Err_0)
    } else if spec_read_bool(entries, "supportsLogPoints"@) is Err {
        Option::Some(spec_read_bool(entries, "supportsLogPoints"@)->Err_0)
    } else if spec_read_bool(entries, "supportsModulesRequest"@) is Err {
        Option::Some(spec_read_bool(entries, "supportsModulesRequest"@)->Err_0)
    } else if spec_read_bool(entries, "supportsReadMemoryRequest"@) is Err {
        Option::Some(spec_read_bool(entries, "supportsReadMemoryRequest"@)->Err_0)
    } else if spec_read_bool(entries, "supportsRestartFrame"@) is Err {
        Option::Some(spec_read_bool(entries, "supportsRestartFrame"@)->Err_0)
    } else if spec_read_bool(entries, "supportsRestartRequest"@) is Err {
        Option::Some(spec_read_bool(entries, "supportsRestartRequest"@)->Err_0)
    } else if spec_read_bool(entries, "supportsSetExpression"@) is Err {
        Option::Some(spec_read_bool(entries, "supportsSetExpression"@)->Err_0)
    } else if spec_read_bool(entries, "supportsSetVariable"@) is Err {
        Option::Some(spec_read_bool(entries, "supportsSetVariable"@)->Err_0)
    } else if spec_read_bool(entries, "supportsSingleThreadExecutionRequests"@) is Err {
        Option::Some(spec_read_bool(entries, "supportsSingleThreadExecutionRequests"@)->Err_0)
    } else if spec_read_bool(entries, "supportsStepBack"@) is Err {
        Option::Some(spec_read_bool(entries, "supportsStepBack"@)->Err_0)
    } else if spec_read_bool(entries, "supportsStepInTargetsRequest"@) is Err {
        Option::Some(spec_read_bool(entries, "supportsStepInTargetsRequest"@)->Err_0)
    } else if spec_read_bool(entries, "supportsSteppingGranularity"@) is Err {
        Option::Some(spec_read_bool(entries, "supportsSteppingGranularity"@)->Err_0)
    } else if spec_read_bool(entries, "supportsTerminateRequest"@) is Err {
        Option::Some(spec_read_bool(entries, "supportsTerminateRequest"@)->Err_0)
    } else if spec_read_bool(entries, "supportsTerminateThreadsRequest"@) is Err {
        Option::Some(spec_read_bool(entries, "supportsTerminateThreadsRequest"@)->Err_0)
    } else if spec_read_bool(entries, "supportsValueFormattingOptions"@) is Err {
        Option::Some(spec_read_bool(entries, "supportsValueFormattingOptions"@)->Err_0)
    } else if spec_read_bool(entries, "supportsWriteMemoryRequest"@) is Err {
        Option::Some(spec_read_bool(entries, "supportsWriteMemoryRequest"@)->Err_0)
    } else if spec_read_bool(entries, "supportsAnsistyling"@) is Err {
        Option::Some(spec_read_bool(entries, "supportsAnsistyling"@)->Err_0)
    } else {
        Option::None
    }
}

/// The capability record a well-shaped wire record denotes.
pub open spec fn spec_caps_value(entries: Seq<(Seq<char>, SpecVal)>) -> CapabilitiesV {
    CapabilitiesV {
        additional_module_columns: match spec_read_arr(entries, "additionalModuleColumns"@) {
            Result::Ok(v) => v,
            Result::Err(_) => Option::None,
        },
        breakpoint_modes: match spec_read_arr(entries, "breakpointModes"@) {
            Result::Ok(v) => v,
            Result::Err(_) => Option::None,
        },
        completion_trigger_characters: match spec_read_strs(entries, "completionTriggerCharacters"@) {
            Result::Ok(v) => v,
            Result::Err(_) => Option::None,
        },
        exception_breakpoint_filters: match spec_read_arr(entries, "exceptionBreakpointFilters"@) {
            Result::Ok(v) => v,
            Result::Err(_) => Option::None,
        },
        support_suspend_debuggee: match spec_read_bool(entries, "supportSuspendDebuggee"@) {
            Result::Ok(v) => v,
            Result::Err(_) => Option::None,
        },
        support_terminate_debuggee: match spec_read_bool(entries, "supportTerminateDebuggee"@) {
            Result::Ok(v) => v,
            Result::Err(_) => Option::None,
        },
        supported_checksum_algorithms: match spec_read_strs(entries, "supportedChecksumAlgorithms"@) {
            Result::Ok(v) => v,
            Result::Err(_) => Option::None,
        },
        supports_breakpoint_locations_request: match spec_read_bool(entries, "supportsBreakpointLocationsRequest"@) {
            Result::Ok(v) => v,
            Result::Err(_) => Option::None,
        },
        supports_cancel_request: match spec_read_bool(entries, "supportsCancelRequest"@) {
            Result::Ok(v) => v,
            Result::Err(_) => Option::None,
        },
        supports_clipboard_context: match spec_read_bool(entries, "supportsClipboardContext"@) {
            Result::Ok(v) => v,
            Result::Err(_) => Option::None,
        },
        supports_completions_request: match spec_read_bool(entries, "supportsCompletionsRequest"@) {
            Result::Ok(v) => v,
            Result::Err(_) => Option::None,
        },
        supports_conditional_breakpoints: match spec_read_bool(entries, "supportsConditionalBreakpoints"@) {
            Result::Ok(v) => v,
            Result::Err(_) => Option::None,
        },
        supports_configuration_done_request: match spec_read_bool(entries, "supportsConfigurationDoneRequest"@) {
            Result::Ok(v) => v,
            Result::Err(_) => Option::None,
        },
        supports_data_breakpoint_bytes: match spec_read_bool(entries, "supportsDataBreakpointBytes"@) {
            Result::Ok(v) => v,
            Result::Err(_) => Option::None,
        },
        supports_data_breakpoints: match spec_read_bool(entries, "supportsDataBreakpoints"@) {
            Result::Ok(v) => v,
            Result::Err(_) => Option::None,
        },
        supports_delayed_stack_trace_loading: match spec_read_bool(entries, "supportsDelayedStackTraceLoading"@) {
            Result::Ok(v) => v,
            Result::Err(_) => Option::None,
        },
        supports_disassemble_request: match spec_read_bool(entries, "supportsDisassembleRequest"@) {
            Result::Ok(v) => v,
            Result::Err(_) => Option::None,
        },
        supports_evaluate_for_hovers: match spec_read_bool(entries, "supportsEvaluateForHovers"@) {
            Result::Ok(v) => v,
            Result::Err(_) => Option::None,
        },
        supports_exception_filter_options: match spec_read_bool(entries, "supportsExceptionFilterOptions"@) {
            Result::Ok(v) => v,
            Result::Err(_) => Option::None,
        },
        supports_exception_info_request: match spec_read_bool(entries, "supportsExceptionInfoRequest"@) {
            Result::Ok(v) => v,
            Result::Err(_) => Option::None,
        },
        supports_exception_options: match spec_read_bool(entries, "supportsExceptionOptions"@) {
            Result::Ok(v) => v,
            Result::Err(_) => Option::None,
        },
        supports_function_breakpoints: match spec_read_bool(entries, "supportsFunctionBreakpoints"@) {
            Result::Ok(v) => v,
            Result::Err(_) => Option::None,
        },
        supports_goto_targets_request: match spec_read_bool(entries, "supportsGotoTargetsRequest"@) {
            Result::Ok(v) => v,
            Result::Err(_) => Option::None,
        },
        supports_hit_conditional_breakpoints: match spec_read_bool(entries, "supportsHitConditionalBreakpoints"@) {
            Result::Ok(v) => v,
            Result::Err(_) => Option::None,
        },
        supports_instruction_breakpoints: match spec_read_bool(entries, "supportsInstructionBreakpoints"@) {
            Result::Ok(v) => v,
            Result::Err(_) => Option::None,
        },
        supports_loaded_sources_request: match spec_read_bool(entries, "supportsLoadedSourcesRequest"@) {
            Result::Ok(v) => v,
            Result::Err(_) => Option::None,
        },
        supports_log_points: match spec_read_bool(entries, "supportsLogPoints"@) {
            Result::Ok(v) => v,
            Result::Err(_) => Option::None,
        },
        supports_modules_request: match spec_read_bool(entries, "supportsModulesRequest"@) {
            Result::Ok(v) => v,
            Result::Err(_) => Option::None,
        },
        supports_read_memory_request: match spec_read_bool(entries, "supportsReadMemoryRequest"@) {
            Result::Ok(v) => v,
            Result::Err(_) => Option::None,
        },
        supports_restart_frame: match spec_read_bool(entries, "supportsRestartFrame"@) {
            Result::Ok(v) => v,
            Result::Err(_) => Option::None,
        },
        supports_restart_request: match spec_read_bool(entries, "supportsRestartRequest"@) {
            Result::Ok(v) => v,
            Result::Err(_) => Option::None,
        },
        supports_set_expression: match spec_read_bool(entries, "supportsSetExpression"@) {
            Result::Ok(v) => v,
            Result::Err(_) => Option::None,
        },
        supports_set_variable: match spec_read_bool(entries, "supportsSetVariable"@) {
            Result::Ok(v) => v,
            Result::Err(_) => Option::None,
        },
        supports_single_thread_execution_requests: match spec_read_bool(entries, "supportsSingleThreadExecutionRequests"@) {
            Result::Ok(v) => v,
            Result::Err(_) => Option::None,
        },
        supports_step_back: match spec_read_bool(entries, "supportsStepBack"@) {
            Result::Ok(v) => v,
            Result::Err(_) => Option::None,
        },
        supports_step_in_targets_request: match spec_read_bool(entries, "supportsStepInTargetsRequest"@) {
            Result::Ok(v) => v,
            Result::Err(_) => Option::None,
        },
        supports_stepping_granularity: match spec_read_bool(entries, "supportsSteppingGranularity"@) {
            Result::Ok(v) => v,
            Result::Err(_) => Option::None,
        },
        supports_terminate_request: match spec_read_bool(entries, "supportsTerminateRequest"@) {
            Result::Ok(v) => v,
            Result::Err(_) => Option::None,
        },
        supports_terminate_threads_request: match spec_read_bool(entries, "supportsTerminateThreadsRequest"@) {
            Result::Ok(v) => v,
            Result::Err(_) => Option::None,
        },
        supports_value_formatting_options: match spec_read_bool(entries, "supportsValueFormattingOptions"@) {
            Result::Ok(v) => v,
            Result::Err(_) => Option::None,
        },
        supports_write_memory_request: match spec_read_bool(entries, "supportsWriteMemoryRequest"@) {
            Result::Ok(v) => v,
            Result::Err(_) => Option::None,
        },
        supports_ansistyling: match spec_read_bool(entries, "supportsAnsistyling"@) {
            Result::Ok(v) => v,
            Result::Err(_) => Option::None,
        },
    }
}

/// What decoding a capability record from wire entries yields: the typed
/// record, or the first field that did not match its expected shape.
pub open spec fn spec_decode_caps(entries: Seq<(Seq<char>, SpecVal)>) -> Result<
    CapabilitiesV,
    FieldErrV,
> {
    match spec_caps_first_err(entries) {
        Option::Some(e) => Result::Err(e),
        Option::None => Result::Ok(spec_caps_value(entries)),
    }
}

/// Decodes a capability record from the entries of a wire record. Unknown
/// keys are ignored; a known key with the wrong shape is an error.
#[verifier::rlimit(100)]
pub fn decode_capabilities(entries: &Vec<(String, Value)>) -> (r: Result<Capabilities, FieldError>)
    ensures
        match r {
            Result::Ok(c) => spec_decode_caps(obj_model(entries@)) == Result::<
                CapabilitiesV,
                FieldErrV,
            >::Ok(c@),
            Result::Err(e) => spec_decode_caps(obj_model(entries@)) == Result::<
                CapabilitiesV,
                FieldErrV,
            >::Err(e@),
        },
{
    let additional_module_columns = match read_arr_field(entries, "additionalModuleColumns") {
        Result::Ok(v) => v,
        Result::Err(e) => return Result::Err(e),
    };
    let breakpoint_modes = match read_arr_field(entries, "breakpointModes") {
        Result::Ok(v) => v,
        Result::Err(e) => return Result::Err(e),
    };
    let completion_trigger_characters = match read_strs_field(entries, "completionTriggerCharacters") {
        Result::Ok(v) => v,
        Result::Err(e) => return Result::Err(e),
    };
    let exception_breakpoint_filters = match read_arr_field(entries, "exceptionBreakpointFilters") {
        Result::Ok(v) => v,
        Result::Err(e) => return Result::Err(e),
    };
    let support_suspend_debuggee = match read_bool_field(entries, "supportSuspendDebuggee") {
        Result::Ok(v) => v,
        Result::Err(e) => return Result::Err(e),
    };
    let support_terminate_debuggee = match read_bool_field(entries, "supportTerminateDebuggee") {
        Result::Ok(v) => v,
        Result::Err(e) => return Result::Err(e),
    };
    let supported_checksum_algorithms = match read_strs_field(entries, "supportedChecksumAlgorithms") {
        Result::Ok(v) => v,
        Result::Err(e) => return Result::Err(e),
    };
    let supports_breakpoint_locations_request = match read_bool_field(entries, "supportsBreakpointLocationsRequest") {
        Result::Ok(v) => v,
        Result::Err(e) => return Result::Err(e),
    };
    let supports_cancel_request = match read_bool_field(entries, "supportsCancelRequest") {
        Result::Ok(v) => v,
        Result::Err(e) => return Result::Err(e),
    };
    let supports_clipboard_context = match read_bool_field(entries, "supportsClipboardContext") {
        Result::Ok(v) => v,
        Result::Err(e) => return Result::Err(e),
    };
    let supports_completions_request = match read_bool_field(entries, "supportsCompletionsRequest") {
        Result::Ok(v) => v,
        Result::Err(e) => return Result::Err(e),
    };
    let supports_conditional_breakpoints = match read_bool_field(entries, "supportsConditionalBreakpoints") {
        Result::Ok(v) => v,
        Result::Err(e) => return Result::Err(e),
    };
    let supports_configuration_done_request = match read_bool_field(entries, "supportsConfigurationDoneRequest") {
        Result::Ok(v) => v,
        Result::Err(e) => return Result::Err(e),
    };
    let supports_data_breakpoint_bytes = match read_bool_field(entries, "supportsDataBreakpointBytes") {
        Result::Ok(v) => v,
        Result::Err(e) => return Result::Err(e),
    };
    let supports_data_breakpoints = match read_bool_field(entries, "supportsDataBreakpoints") {
        Result::Ok(v) => v,
        Result::Err(e) => return Result::Err(e),
    };
    let supports_delayed_stack_trace_loading = match read_bool_field(entries, "supportsDelayedStackTraceLoading") {
        Result::Ok(v) => v,
        Result::Err(e) => return Result::Err(e),
    };
    let supports_disassemble_request = match read_bool_field(entries, "supportsDisassembleRequest") {
        Result::Ok(v) => v,
        Result::Err(e) => return Result::Err(e),
    };
    let supports_evaluate_for_hovers = match read_bool_field(entries, "supportsEvaluateForHovers") {
        Result::Ok(v) => v,
        Result::Err(e) => return Result::Err(e),
    };
    let supports_exception_filter_options = match read_bool_field(entries, "supportsExceptionFilterOptions") {
        Result::Ok(v) => v,
        Result::Err(e) => return Result::Err(e),
    };
    let supports_exception_info_request = match read_bool_field(entries, "supportsExceptionInfoRequest") {
        Result::Ok(v) => v,
        Result::Err(e) => return Result::Err(e),
    };
    let supports_exception_options = match read_bool_field(entries, "supportsExceptionOptions") {
        Result::Ok(v) => v,
        Result::Err(e) => return Result::Err(e),
    };
    let supports_function_breakpoints = match read_bool_field(entries, "supportsFunctionBreakpoints") {
        Result::Ok(v) => v,
        Result::Err(e) => return Result::Err(e),
    };
    let supports_goto_targets_request = match read_bool_field(entries, "supportsGotoTargetsRequest") {
        Result::Ok(v) => v,
        Result::Err(e) => return Result::Err(e),
    };
    let supports_hit_conditional_breakpoints = match read_bool_field(entries, "supportsHitConditionalBreakpoints") {
        Result::Ok(v) => v,
        Result::Err(e) => return Result::Err(e),
    };
    let supports_instruction_breakpoints = match read_bool_field(entries, "supportsInstructionBreakpoints") {
        Result::Ok(v) => v,
        Result::Err(e) => return Result::Err(e),
    };
    let supports_loaded_sources_request = match read_bool_field(entries, "supportsLoadedSourcesRequest") {
        Result::Ok(v) => v,
        Result::Err(e) => return Result::Err(e),
    };
    let supports_log_points = match read_bool_field(entries, "supportsLogPoints") {
        Result::Ok(v) => v,
        Result::Err(e) => return Result::Err(e),
    };
    let supports_modules_request = match read_bool_field(entries, "supportsModulesRequest") {
        Result::Ok(v) => v,
        Result::Err(e) => return Result::Err(e),
    };
    let supports_read_memory_request = match read_bool_field(entries, "supportsReadMemoryRequest") {
        Result::Ok(v) => v,
        Result::Err(e) => return Result::Err(e),
    };
    let supports_restart_frame = match read_bool_field(entries, "supportsRestartFrame") {
        Result::Ok(v) => v,
        Result::Err(e) => return Result::Err(e),
    };
    let supports_restart_request = match read_bool_field(entries, "supportsRestartRequest") {
        Result::Ok(v) => v,
        Result::Err(e) => return Result::Err(e),
    };
    let supports_set_expression = match read_bool_field(entries, "supportsSetExpression") {
        Result::Ok(v) => v,
        Result::Err(e) => return Result::Err(e),
    };
    let supports_set_variable = match read_bool_field(entries, "supportsSetVariable") {
        Result::Ok(v) => v,
        Result::Err(e) => return Result::Err(e),
    };
    let supports_single_thread_execution_requests = match read_bool_field(entries, "supportsSingleThreadExecutionRequests") {
        Result::Ok(v) => v,
        Result::Err(e) => return Result::Err(e),
    };
    let supports_step_back = match read_bool_field(entries, "supportsStepBack") {
        Result::Ok(v) => v,
        Result::Err(e) => return Result::Err(e),
    };
    let supports_step_in_targets_request = match read_bool_field(entries, "supportsStepInTargetsRequest") {
        Result::Ok(v) => v,
        Result::Err(e) => return Result::Err(e),
    };
    let supports_stepping_granularity = match read_bool_field(entries, "supportsSteppingGranularity") {
        Result::Ok(v) => v,
        Result::Err(e) => return Result::Err(e),
    };
    let supports_terminate_request = match read_bool_field(entries, "supportsTerminateRequest") {
        Result::Ok(v) => v,
        Result::Err(e) => return Result::Err(e),
    };
    let supports_terminate_threads_request = match read_bool_field(entries, "supportsTerminateThreadsRequest") {
        Result::Ok(v) => v,
        Result::Err(e) => return Result::Err(e),
    };
    let supports_value_formatting_options = match read_bool_field(entries, "supportsValueFormattingOptions") {
        Result::Ok(v) => v,
        Result::Err(e) => return Result::Err(e),
    };
    let supports_write_memory_request = match read_bool_field(entries, "supportsWriteMemoryRequest") {
        Result::Ok(v) => v,
        Result::Err(e) => return Result::Err(e),
    };
    let supports_ansistyling = match read_bool_field(entries, "supportsAnsistyling") {
        Result::Ok(v) => v,
        Result::Err(e) => return Result::Err(e),
    };
    let r = Capabilities {
        additional_module_columns,
        breakpoint_modes,
        completion_trigger_characters,
        exception_breakpoint_filters,
        support_suspend_debuggee,
        support_terminate_debuggee,
        supported_checksum_algorithms,
        supports_breakpoint_locations_request,
        supports_cancel_request,
        supports_clipboard_context,
        supports_completions_request,
        supports_conditional_breakpoints,
        supports_configuration_done_request,
        supports_data_breakpoint_bytes,
        supports_data_breakpoints,
        supports_delayed_stack_trace_loading,
        supports_disassemble_request,
        supports_evaluate_for_hovers,
        supports_exception_filter_options,
        supports_exception_info_request,
        supports_exception_options,
        supports_function_breakpoints,
        supports_goto_targets_request,
        supports_hit_conditional_breakpoints,
        supports_instruction_breakpoints,
        supports_loaded_sources_request,
        supports_log_points,
        supports_modules_request,
        supports_read_memory_request,
        supports_restart_frame,
        supports_restart_request,
        supports_set_expression,
        supports_set_variable,
        supports_single_thread_execution_requests,
        supports_step_back,
        supports_step_in_targets_request,
        supports_stepping_granularity,
        supports_terminate_request,
        supports_terminate_threads_request,
        supports_value_formatting_options,
        supports_write_memory_request,
        supports_ansistyling,
    };
    proof {
        assert(spec_caps_first_err(obj_model(entries@)) is None);
        assert(r@ =~= spec_caps_value(obj_model(entries@)));
    }
    Result::Ok(r)
}

/// String values for a list of strings.
fn strs_items(items: &Vec<String>) -> (r: Vec<Value>)
    ensures
        arr_model(r@) == strs_to_vals(strs_model(items@)),
{
    let mut out: Vec<Value> = Vec::new();
    let mut i: usize = 0;
    while i < items.len()
        invariant
            i <= items@.len(),
            out@.len() == i,
            forall|j: int| 0 <= j < i ==> (#[trigger] out@[j]) is Str && out@[j]->Str_0@ == items@[j]@,
        decreases items@.len() - i,
    {
        let d = items[i].as_str().to_owned();
        out.push(Value::Str(d));
        i = i + 1;
    }
    proof {
        assert(arr_model(out@) =~= strs_to_vals(strs_model(items@)));
    }
    out
}

/// Appends a present boolean field under its wire key.
fn push_bool_field(out: &mut Vec<(String, Value)>, key: &str, v: Option<bool>)
    ensures
        obj_model(final(out)@) == push_opt(obj_model(old(out)@), key@, opt_bool_val(v)),
{
    broadcast use crate::value::lemma_obj_model_push;

    match v {
        Option::Some(b) => out.push((key.to_owned(), Value::Bool(b))),
        Option::None => (),
    }
}

/// Appends a present raw-list field under its wire key.
fn push_arr_field(out: &mut Vec<(String, Value)>, key: &str, v: &Option<Vec<Value>>)
    ensures
        obj_model(final(out)@) == push_opt(
            obj_model(old(out)@),
            key@,
            opt_arr_val(opt_arr_model(*v)),
        ),
{
    broadcast use crate::value::lemma_obj_model_push, crate::value::lemma_val_model_arr;

    match v {
        Option::Some(items) => out.push((key.to_owned(), Value::Arr(dup_items(items)))),
        Option::None => (),
    }
}

/// Appends a present string-list field under its wire key.
fn push_strs_field(out: &mut Vec<(String, Value)>, key: &str, v: &Option<Vec<String>>)
    ensures
        obj_model(final(out)@) == push_opt(
            obj_model(old(out)@),
            key@,
            opt_strs_val(opt_strs_model(*v)),
        ),
{
    broadcast use crate::value::lemma_obj_model_push, crate::value::lemma_val_model_arr;

    match v {
        Option::Some(items) => out.push((key.to_owned(), Value::Arr(strs_items(items)))),
        Option::None => (),
    }
}

/// Appends one canonical-order slice of the capability entries.
#[verifier::rlimit(50)]
fn encode_caps_g0(c: &Capabilities, out: &mut Vec<(String, Value)>)
    ensures
        obj_model(final(out)@) == caps_entries_g0(obj_model(old(out)@), c@),
{
    push_arr_field(out, "additionalModuleColumns", &c.additional_module_columns);
    push_arr_field(out, "breakpointModes", &c.breakpoint_modes);
    push_strs_field(out, "completionTriggerCharacters", &c.completion_trigger_characters);
    push_arr_field(out, "exceptionBreakpointFilters", &c.exception_breakpoint_filters);
    push_bool_field(out, "supportSuspendDebuggee", c.support_suspend_debuggee);
    push_bool_field(out, "supportTerminateDebuggee", c.support_terminate_debuggee);
    push_strs_field(out, "supportedChecksumAlgorithms", &c.supported_checksum_algorithms);
}

/// Appends one canonical-order slice of the capability entries.
#[verifier::rlimit(50)]
fn encode_caps_g1(c: &Capabilities, out: &mut Vec<(String, Value)>)
    ensures
        obj_model(final(out)@) == caps_entries_g1(obj_model(old(out)@), c@),
{
    push_bool_field(out, "supportsBreakpointLocationsRequest", c.supports_breakpoint_locations_request);
    push_bool_field(out, "supportsCancelRequest", c.supports_cancel_request);
    push_bool_field(out, "supportsClipboardContext", c.supports_clipboard_context);
    push_bool_field(out, "supportsCompletionsRequest", c.supports_completions_request);
    push_bool_field(out, "supportsConditionalBreakpoints", c.supports_conditional_breakpoints);
    push_bool_field(out, "supportsConfigurationDoneRequest", c.supports_configuration_done_request);
    push_bool_field(out, "supportsDataBreakpointBytes", c.supports_data_breakpoint_bytes);
}

/// Appends one canonical-order slice of the capability entries.
#[verifier::rlimit(50)]
fn encode_caps_g2(c: &Capabilities, out: &mut Vec<(String, Value)>)
    ensures
        obj_model(final(out)@) == caps_entries_g2(obj_model(old(out)@), c@),
{
    push_bool_field(out, "supportsDataBreakpoints", c.supports_data_breakpoints);
    push_bool_field(out, "supportsDelayedStackTraceLoading", c.supports_delayed_stack_trace_loading);
    push_bool_field(out, "supportsDisassembleRequest", c.supports_disassemble_request);
    push_bool_field(out, "supportsEvaluateForHovers", c.supports_evaluate_for_hovers);
    push_bool_field(out, "supportsExceptionFilterOptions", c.supports_exception_filter_options);
    push_bool_field(out, "supportsExceptionInfoRequest", c.supports_exception_info_request);
    push_bool_field(out, "supportsExceptionOptions", c.supports_exception_options);
}

/// Appends one canonical-order slice of the capability entries.
#[verifier::rlimit(50)]
fn encode_caps_g3(c: &Capabilities, out: &mut Vec<(String, Value)>)
    ensures
        obj_model(final(out)@) == caps_entries_g3(obj_model(old(out)@), c@),
{
    push_bool_field(out, "supportsFunctionBreakpoints", c.supports_function_breakpoints);
    push_bool_field(out, "supportsGotoTargetsRequest", c.supports_goto_targets_request);
    push_bool_field(out, "supportsHitConditionalBreakpoints", c.supports_hit_conditional_breakpoints);
    push_bool_field(out, "supportsInstructionBreakpoints", c.supports_instruction_breakpoints);
    push_bool_field(out, "supportsLoadedSourcesRequest", c.supports_loaded_sources_request);
    push_bool_field(out, "supportsLogPoints", c.supports_log_points);
    push_bool_field(out, "supportsModulesRequest", c.supports_modules_request);
}

/// Appends one canonical-order slice of the capability entries.
#[verifier::rlimit(50)]
fn encode_caps_g4(c: &Capabilities, out: &mut Vec<(String, Value)>)
    ensures
        obj_model(final(out)@) == caps_entries_g4(obj_model(old(out)@), c@),
{
    push_bool_field(out, "supportsReadMemoryRequest", c.supports_read_memory_request);
    push_bool_field(out, "supportsRestartFrame", c.supports_restart_frame);
    push_bool_field(out, "supportsRestartRequest", c.supports_restart_request);
    push_bool_field(out, "supportsSetExpression", c.supports_set_expression);
    push_bool_field(out, "supportsSetVariable", c.supports_set_variable);
    push_bool_field(out, "supportsSingleThreadExecutionRequests", c.supports_single_thread_execution_requests);
    push_bool_field(out, "supportsStepBack", c.supports_step_back);
}

/// Appends one canonical-order slice of the capability entries.
#[verifier::rlimit(50)]
fn encode_caps_g5(c: &Capabilities, out: &mut Vec<(String, Value)>)
    ensures
        obj_model(final(out)@) == caps_entries_g5(obj_model(old(out)@), c@),
{
    push_bool_field(out, "supportsStepInTargetsRequest", c.supports_step_in_targets_request);
    push_bool_field(out, "supportsSteppingGranularity", c.supports_stepping_granularity);
    push_bool_field(out, "supportsTerminateRequest", c.supports_terminate_request);
    push_bool_field(out, "supportsTerminateThreadsRequest", c.supports_terminate_threads_request);
    push_bool_field(out, "supportsValueFormattingOptions", c.supports_value_formatting_options);
    push_bool_field(out, "supportsWriteMemoryRequest", c.supports_write_memory_request);
    push_bool_field(out, "supportsAnsistyling", c.supports_ansistyling);
}

/// Encodes a capability record as wire entries: each present field under
/// its wire key, in canonical order; absent fields are omitted.
pub fn encode_capabilities(c: &Capabilities) -> (r: Vec<(String, Value)>)
    ensures
        obj_model(r@) == spec_caps_entries(c@),
{
    let mut out: Vec<(String, Value)> = Vec::new();
    proof {
        assert(obj_model(out@) =~= Seq::<(Seq<char>, SpecVal)>::empty());
    }
    encode_caps_g0(c, &mut out);
    encode_caps_g1(c, &mut out);
    encode_caps_g2(c, &mut out);
    encode_caps_g3(c, &mut out);
    encode_caps_g4(c, &mut out);
    encode_caps_g5(c, &mut out);
    out
}

} // verus!
