//! Compute devices for tensor operations.
use vstd::prelude::*;
use crate::text::{decimal_digits, spec_decimal};

verus! {

/// Compute device for tensor operations.
#[derive(Debug, Clone, Copy, PartialEq, Eq, Structural)]
pub enum Device {
    /// CPU backend (always available).
    Cpu,
    /// Apple Metal backend (M1/M2/M3/M4).
    Metal,
    /// NVIDIA CUDA backend with the GPU ordinal.
    Cuda(usize),
}

impl Device {
    /// Create a Metal device for Apple Silicon.
    pub fn m4_metal() -> (d: Self)
        ensures
            d == Device::Metal,
    {
        Device::Metal
    }

    /// Create a CUDA device with the specified GPU ordinal.
    pub fn cuda(ordinal: usize) -> (d: Self)
        ensures
            d == Device::Cuda(ordinal),
    {
        Device::Cuda(ordinal)
    }

    /// Create a CPU device.
    pub fn cpu() -> (d: Self)
        ensures
            d == Device::Cpu,
    {
        Device::Cpu
    }

    /// Check if this device is GPU-accelerated.
    pub fn is_gpu(&self) -> (b: bool)
        ensures
            b == !(*self is Cpu),
    {
        match self {
            Device::Cpu => false,
            Device::Metal => true,
            Device::Cuda(_) => true,
        }
    }

    /// The display text of the device.
    pub open spec fn spec_label(self) -> Seq<char> {
        match self {
            Device::Cpu => "CPU"@,
            Device::Metal => "Metal (Apple Silicon)"@,
            Device::Cuda(ord) => "CUDA:"@ + spec_decimal(ord as nat),
        }
    }

    /// The display text of the device (`CPU`, `Metal (Apple Silicon)`, `CUDA:n`).
    pub fn label(&self) -> (s: String)
        ensures
            s@ == self.spec_label(),
    {
        match self {
            Device::Cpu => String::from_str("CPU"),
            Device::Metal => String::from_str("Metal (Apple Silicon)"),
            Device::Cuda(ord) => {
                let mut s = String::from_str("CUDA:");
                let d = decimal_digits(*ord as u128);
                s.append(d.as_str());
                s
            },
        }
    }
}

impl Default for Device {
    fn default() -> (d: Self)
        ensures
            d == Device::Cpu,
    {
        Device::Cpu
    }
}

} // verus!
