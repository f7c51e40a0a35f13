//! The logical device's configuration and identity.
//!
//! After negotiation the logical device is created with two queues and a
//! fixed feature bundle; there is no fallback negotiation. This module
//! computes that configuration and derives the human-readable identity
//! of the chosen device from its reported properties.

use vstd::prelude::*;
use vstd::string::StringExecFns;
use crate::negotiate::PhysicalDeviceChoice;
use crate::resources::COMMAND_POOL_TRANSIENT;

verus! {

/// One queue requested at device creation. Priorities are recorded in
/// hundredths of the API's unit-interval priority, so that the whole
/// configuration stays in integers; the caller divides by one hundred.
#[derive(Clone, Copy, PartialEq, Eq, Structural, Debug)]
pub struct QueueConfig {
    pub family_index: u32,
    pub priority_hundredths: u32,
}

/// The features the logical device is created with. Every field is
/// demanded unconditionally, except robust buffer access, which is a
/// debugging aid.
#[derive(Clone, Copy, PartialEq, Eq, Structural, Debug)]
pub struct DeviceFeatures {
    pub variable_pointers: bool,
    pub variable_pointers_storage_buffer: bool,
    pub scalar_block_layout: bool,
    pub shader_image_float32_atomics: bool,
    pub extended_dynamic_state2: bool,
    pub runtime_descriptor_array: bool,
    pub shader_sampled_image_array_non_uniform_indexing: bool,
    pub shader_storage_image_array_non_uniform_indexing: bool,
    pub shader_storage_buffer_array_non_uniform_indexing: bool,
    pub shader_uniform_buffer_array_non_uniform_indexing: bool,
    pub descriptor_binding_storage_image_update_after_bind: bool,
    pub descriptor_binding_sampled_image_update_after_bind: bool,
    pub descriptor_binding_partially_bound: bool,
    pub descriptor_binding_variable_descriptor_count: bool,
    pub descriptor_binding_update_unused_while_pending: bool,
    pub buffer_device_address: bool,
    pub synchronization2: bool,
    pub graphics_pipeline_library: bool,
    pub dynamic_rendering: bool,
    pub shader_storage_image_write_without_format: bool,
    pub shader_storage_image_read_without_format: bool,
    pub shader_int64: bool,
    pub robust_buffer_access: bool,
}

impl DeviceFeatures {
    /// Every unconditional feature of the bundle is on.
    pub open spec fn all_required_on(self) -> bool {
        &&& self.variable_pointers
        &&& self.variable_pointers_storage_buffer
        &&& self.scalar_block_layout
        &&& self.shader_image_float32_atomics
        &&& self.extended_dynamic_state2
        &&& self.runtime_descriptor_array
        &&& self.shader_sampled_image_array_non_uniform_indexing
        &&& self.shader_storage_image_array_non_uniform_indexing
        &&& self.shader_storage_buffer_array_non_uniform_indexing
        &&& self.shader_uniform_buffer_array_non_uniform_indexing
        &&& self.descriptor_binding_storage_image_update_after_bind
        &&& self.descriptor_binding_sampled_image_update_after_bind
        &&& self.descriptor_binding_partially_bound
        &&& self.descriptor_binding_variable_descriptor_count
        &&& self.descriptor_binding_update_unused_while_pending
        &&& self.buffer_device_address
        &&& self.synchronization2
        &&& self.graphics_pipeline_library
        &&& self.dynamic_rendering
        &&& self.shader_storage_image_write_without_format
        &&& self.shader_storage_image_read_without_format
        &&& self.shader_int64
    }
}

/// The fixed feature bundle: everything on, robust buffer access only in
/// debug builds.
pub fn required_features(debug_build: bool) -> (r: DeviceFeatures)
    ensures
        r.all_required_on(),
        r.robust_buffer_access == debug_build,
{
    DeviceFeatures {
        variable_pointers: true,
        variable_pointers_storage_buffer: true,
        scalar_block_layout: true,
        shader_image_float32_atomics: true,
        extended_dynamic_state2: true,
        runtime_descriptor_array: true,
        shader_sampled_image_array_non_uniform_indexing: true,
        shader_storage_image_array_non_uniform_indexing: true,
        shader_storage_buffer_array_non_uniform_indexing: true,
        shader_uniform_buffer_array_non_uniform_indexing: true,
        descriptor_binding_storage_image_update_after_bind: true,
        descriptor_binding_sampled_image_update_after_bind: true,
        descriptor_binding_partially_bound: true,
        descriptor_binding_variable_descriptor_count: true,
        descriptor_binding_update_unused_while_pending: true,
        buffer_device_address: true,
        synchronization2: true,
        graphics_pipeline_library: true,
        dynamic_rendering: true,
        shader_storage_image_write_without_format: true,
        shader_storage_image_read_without_format: true,
        shader_int64: true,
        robust_buffer_access: debug_build,
    }
}

/// The two queues the logical device is created with: the main queue at
/// full priority, the transfer queue at half.
pub fn queue_configs(choice: &PhysicalDeviceChoice) -> (r: (QueueConfig, QueueConfig))
    ensures
        r.0.family_index == choice.main_queue_family_idx,
        r.0.priority_hundredths == 100,
        r.1.family_index == choice.transfer_queue_family_idx,
        r.1.priority_hundredths == 50,
{
    (
        QueueConfig { family_index: choice.main_queue_family_idx, priority_hundredths: 100 },
        QueueConfig { family_index: choice.transfer_queue_family_idx, priority_hundredths: 50 },
    )
}

/// What the device's transient command pool is created with.
#[derive(Clone, Copy, PartialEq, Eq, Structural, Debug)]
pub struct CommandPoolConfig {
    pub flags: u32,
    pub queue_family_index: u32,
}

/// The transient command pool lives on the main queue family.
pub fn transient_command_pool_config(choice: &PhysicalDeviceChoice) -> (r: CommandPoolConfig)
    ensures
        r.flags == COMMAND_POOL_TRANSIENT,
        r.queue_family_index == choice.main_queue_family_idx,
{
    CommandPoolConfig {
        flags: COMMAND_POOL_TRANSIENT,
        queue_family_index: choice.main_queue_family_idx,
    }
}

// Device type codes as the API reports them.
pub const DEVICE_TYPE_OTHER: i32 = 0;
pub const DEVICE_TYPE_INTEGRATED_GPU: i32 = 1;
pub const DEVICE_TYPE_DISCRETE_GPU: i32 = 2;
pub const DEVICE_TYPE_VIRTUAL_GPU: i32 = 3;
pub const DEVICE_TYPE_CPU: i32 = 4;

/// The name shown for a device type code.
pub open spec fn spec_device_type_name(device_type: i32) -> Seq<char> {
    if device_type == DEVICE_TYPE_CPU {
        "CPU"@
    } else if device_type == DEVICE_TYPE_INTEGRATED_GPU {
        "INTEGRATED_GPU"@
    } else if device_type == DEVICE_TYPE_DISCRETE_GPU {
        "DISCRETE_GPU"@
    } else if device_type == DEVICE_TYPE_VIRTUAL_GPU {
        "VIRTUAL_GPU"@
    } else {
        "OTHER"@
    }
}

/// The name shown for a vendor identifier.
pub open spec fn spec_vendor_name(vendor_id: u32) -> Seq<char> {
    if vendor_id == 0x1002 {
        "AMD"@
    } else if vendor_id == 0x1010 {
        "ImgTec"@
    } else if vendor_id == 0x10DE {
        "NVIDIA Corporation"@
    } else if vendor_id == 0x13B5 {
        "ARM"@
    } else if vendor_id == 0x5143 {
        "Qualcomm"@
    } else if vendor_id == 0x8086 {
        "INTEL Corporation"@
    } else {
        "Unknown vendor"@
    }
}

/// The properties the driver reports for the chosen device, reduced to
/// the plain values the identity functions read.
pub struct DeviceProperties {
    pub device_name: String,
    pub device_type: i32,
    pub vendor_id: u32,
}

/// Human-readable identity of the device in use.
#[derive(Debug)]
pub struct RendererInfo {
    pub device_name: String,
    pub device_type: String,
    pub vendor_name: String,
}

impl RendererInfo {
    /// The multi-line form the renderer prints, one field per line.
    pub fn describe(&self) -> (r: String)
        ensures
            r@ == "Vendor name: "@ + self.vendor_name@ + "\n"@ + "Device name: "@
                + self.device_name@ + "\n"@ + "Device type: "@ + self.device_type@ + "\n"@,
    {
        let mut s = String::new();
        s.append("Vendor name: ");
        s.append(self.vendor_name.as_str());
        s.append("\n");
        s.append("Device name: ");
        s.append(self.device_name.as_str());
        s.append("\n");
        s.append("Device type: ");
        s.append(self.device_type.as_str());
        s.append("\n");
        proof {
            assert(s@ =~= "Vendor name: "@ + self.vendor_name@ + "\n"@ + "Device name: "@
                + self.device_name@ + "\n"@ + "Device type: "@ + self.device_type@ + "\n"@);
        }
        s
    }
}

/// The logical device's verified state: which queue families it was
/// created on and what the driver reported about the physical device.
pub struct Device {
    pub main_queue_family_idx: u32,
    pub transfer_queue_family_idx: u32,
    pub properties: DeviceProperties,
}

impl Device {
    /// The two queue families are distinct by construction.
    pub open spec fn wf(self) -> bool {
        self.main_queue_family_idx != self.transfer_queue_family_idx
    }

    /// Assembles the device state from a negotiation outcome and the
    /// reported properties.
    pub fn new(choice: &PhysicalDeviceChoice, properties: DeviceProperties) -> (r: Device)
        requires
            choice.main_queue_family_idx != choice.transfer_queue_family_idx,
        ensures
            r.wf(),
            r.main_queue_family_idx == choice.main_queue_family_idx,
            r.transfer_queue_family_idx == choice.transfer_queue_family_idx,
            r.properties == properties,
    {
        Device {
            main_queue_family_idx: choice.main_queue_family_idx,
            transfer_queue_family_idx: choice.transfer_queue_family_idx,
            properties,
        }
    }

    /// The reported device name.
    pub fn get_device_name(&self) -> (r: &str)
        ensures
            r@ == self.properties.device_name@,
    {
        self.properties.device_name.as_str()
    }

    /// The device type, by the fixed code table.
    pub fn get_device_type(&self) -> (r: &'static str)
        ensures
            r@ == spec_device_type_name(self.properties.device_type),
    {
        if self.properties.device_type == DEVICE_TYPE_CPU {
            "CPU"
        } else if self.properties.device_type == DEVICE_TYPE_INTEGRATED_GPU {
            "INTEGRATED_GPU"
        } else if self.properties.device_type == DEVICE_TYPE_DISCRETE_GPU {
            "DISCRETE_GPU"
        } else if self.properties.device_type == DEVICE_TYPE_VIRTUAL_GPU {
            "VIRTUAL_GPU"
        } else {
            "OTHER"
        }
    }

    /// The vendor, by the fixed identifier table.
    pub fn get_vendor_name(&self) -> (r: &'static str)
        ensures
            r@ == spec_vendor_name(self.properties.vendor_id),
    {
        if self.properties.vendor_id == 0x1002 {
            "AMD"
        } else if self.properties.vendor_id == 0x1010 {
            "ImgTec"
        } else if self.properties.vendor_id == 0x10DE {
            "NVIDIA Corporation"
        } else if self.properties.vendor_id == 0x13B5 {
            "ARM"
        } else if self.properties.vendor_id == 0x5143 {
            "Qualcomm"
        } else if self.properties.vendor_id == 0x8086 {
            "INTEL Corporation"
        } else {
            "Unknown vendor"
        }
    }

    /// The renderer's identity lines, all three derived from the
    /// reported properties.
    pub fn get_info(&self) -> (r: RendererInfo)
        ensures
            r.device_name@ == self.properties.device_name@,
            r.device_type@ == spec_device_type_name(self.properties.device_type),
            r.vendor_name@ == spec_vendor_name(self.properties.vendor_id),
    {
        RendererInfo {
            device_name: self.properties.device_name.clone(),
            device_type: String::from_str(self.get_device_type()),
            vendor_name: String::from_str(self.get_vendor_name()),
        }
    }
}

} // verus!
