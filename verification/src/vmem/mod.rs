//! Words of the translation schemes: virtual addresses, physical addresses
//! and page table entries, and the registry that finds the layout for a
//! name. These are words in memory, not registers.
//!
//! Names are looked up without regard to case. Each layout goes by two
//! names, such as `pte_sv39` and `sv39_pte`.
pub mod pa;
pub mod pte;
pub mod va;

use crate::format::Csr;
use crate::text::{lower, lower_chars_of, spells};
pub use pa::{PAddr32, PAddr39, PAddr48, PAddr57};
pub use pte::{Pte32, Pte39, Pte48, Pte57};
pub use va::{VAddr32, VAddr39, VAddr48, VAddr57};
use vstd::prelude::*;

verus! {

/// Why no report could be made for a name.
#[derive(Debug, PartialEq, Eq)]
pub enum VmemError {
    /// The name is no name of a layout of the translation schemes.
    Unknown(String),
}

impl VmemError {
    /// The message for the user.
    pub open spec fn message_text(&self) -> Seq<char> {
        match self {
            VmemError::Unknown(name) => "\""@ + name@
                + "\" is not a name of a supported virtual memory related format"@,
        }
    }

    /// Writes the message for the user.
    pub fn message(&self) -> (text: String)
        ensures
            text@ == self.message_text(),
    {
        match self {
            VmemError::Unknown(name) => {
                let mut text = String::from_str("\"");
                text.append(name.as_str());
                text.append("\" is not a name of a supported virtual memory related format");
                text
            },
        }
    }
}

/// The layouts that the registry hands out.
#[derive(Debug, Clone, Copy, PartialEq, Eq)]
pub enum VmemLayout {
    Pte32,
    Pte39,
    Pte48,
    Pte57,
    VAddr32,
    VAddr39,
    VAddr48,
    VAddr57,
    PAddr32,
    PAddr39,
    PAddr48,
    PAddr57,
}

impl VmemLayout {
    /// The report on the raw word `value` under this layout.
    pub open spec fn report(self, value: u64) -> Seq<char> {
        match self {
            VmemLayout::Pte32 => Pte32::decoded(value).report(),
            VmemLayout::Pte39 => Pte39::decoded(value).report(),
            VmemLayout::Pte48 => Pte48::decoded(value).report(),
            VmemLayout::Pte57 => Pte57::decoded(value).report(),
            VmemLayout::VAddr32 => VAddr32::decoded(value).report(),
            VmemLayout::VAddr39 => VAddr39::decoded(value).report(),
            VmemLayout::VAddr48 => VAddr48::decoded(value).report(),
            VmemLayout::VAddr57 => VAddr57::decoded(value).report(),
            VmemLayout::PAddr32 => PAddr32::decoded(value).report(),
            VmemLayout::PAddr39 => PAddr39::decoded(value).report(),
            VmemLayout::PAddr48 => PAddr48::decoded(value).report(),
            VmemLayout::PAddr57 => PAddr57::decoded(value).report(),
        }
    }

    /// Cuts `value` into the fields of this layout and writes the report.
    pub fn render(self, value: u64) -> (text: String)
        ensures
            text@ == self.report(value),
    {
        match self {
            VmemLayout::Pte32 => Pte32::new(value).render(),
            VmemLayout::Pte39 => Pte39::new(value).render(),
            VmemLayout::Pte48 => Pte48::new(value).render(),
            VmemLayout::Pte57 => Pte57::new(value).render(),
            VmemLayout::VAddr32 => VAddr32::new(value).render(),
            VmemLayout::VAddr39 => VAddr39::new(value).render(),
            VmemLayout::VAddr48 => VAddr48::new(value).render(),
            VmemLayout::VAddr57 => VAddr57::new(value).render(),
            VmemLayout::PAddr32 => PAddr32::new(value).render(),
            VmemLayout::PAddr39 => PAddr39::new(value).render(),
            VmemLayout::PAddr48 => PAddr48::new(value).render(),
            VmemLayout::PAddr57 => PAddr57::new(value).render(),
        }
    }
}

/// The layout that goes by the lower-case name `name`.
pub open spec fn layout_named(name: Seq<char>) -> Option<VmemLayout> {
    if name == "pte_sv32"@ || name == "sv32_pte"@ {
        Some(VmemLayout::Pte32)
    } else if name == "pte_sv39"@ || name == "sv39_pte"@ {
        Some(VmemLayout::Pte39)
    } else if name == "pte_sv48"@ || name == "sv48_pte"@ {
        Some(VmemLayout::Pte48)
    } else if name == "pte_sv57"@ || name == "sv57_pte"@ {
        Some(VmemLayout::Pte57)
    } else if name == "vaddr_sv32"@ || name == "sv32_vaddr"@ {
        Some(VmemLayout::VAddr32)
    } else if name == "vaddr_sv39"@ || name == "sv39_vaddr"@ {
        Some(VmemLayout::VAddr39)
    } else if name == "vaddr_sv48"@ || name == "sv48_vaddr"@ {
        Some(VmemLayout::VAddr48)
    } else if name == "vaddr_sv57"@ || name == "sv57_vaddr"@ {
        Some(VmemLayout::VAddr57)
    } else if name == "paddr_sv32"@ || name == "sv32_paddr"@ {
        Some(VmemLayout::PAddr32)
    } else if name == "paddr_sv39"@ || name == "sv39_paddr"@ {
        Some(VmemLayout::PAddr39)
    } else if name == "paddr_sv48"@ || name == "sv48_paddr"@ {
        Some(VmemLayout::PAddr48)
    } else if name == "paddr_sv57"@ || name == "sv57_paddr"@ {
        Some(VmemLayout::PAddr57)
    } else {
        None
    }
}

/// Finds the layout that goes by the name `vmem_str`, whatever its case.
///
/// Fails with [`VmemError::Unknown`] where `vmem_str` is no name of the
/// registry.
pub fn resolve(vmem_str: &str) -> (layout: Result<VmemLayout, VmemError>)
    ensures
        match layout_named(lower(vmem_str@)) {
            Some(found) => layout == Ok::<VmemLayout, VmemError>(found),
            None => layout matches Err(VmemError::Unknown(name)) && name@ == vmem_str@,
        },
{
    let name = lower_chars_of(vmem_str);
    if spells(&name, "pte_sv32") || spells(&name, "sv32_pte") {
        Ok(VmemLayout::Pte32)
    } else if spells(&name, "pte_sv39") || spells(&name, "sv39_pte") {
        Ok(VmemLayout::Pte39)
    } else if spells(&name, "pte_sv48") || spells(&name, "sv48_pte") {
        Ok(VmemLayout::Pte48)
    } else if spells(&name, "pte_sv57") || spells(&name, "sv57_pte") {
        Ok(VmemLayout::Pte57)
    } else if spells(&name, "vaddr_sv32") || spells(&name, "sv32_vaddr") {
        Ok(VmemLayout::VAddr32)
    } else if spells(&name, "vaddr_sv39") || spells(&name, "sv39_vaddr") {
        Ok(VmemLayout::VAddr39)
    } else if spells(&name, "vaddr_sv48") || spells(&name, "sv48_vaddr") {
        Ok(VmemLayout::VAddr48)
    } else if spells(&name, "vaddr_sv57") || spells(&name, "sv57_vaddr") {
        Ok(VmemLayout::VAddr57)
    } else if spells(&name, "paddr_sv32") || spells(&name, "sv32_paddr") {
        Ok(VmemLayout::PAddr32)
    } else if spells(&name, "paddr_sv39") || spells(&name, "sv39_paddr") {
        Ok(VmemLayout::PAddr39)
    } else if spells(&name, "paddr_sv48") || spells(&name, "sv48_paddr") {
        Ok(VmemLayout::PAddr48)
    } else if spells(&name, "paddr_sv57") || spells(&name, "sv57_paddr") {
        Ok(VmemLayout::PAddr57)
    } else {
        Err(VmemError::Unknown(String::from_str(vmem_str)))
    }
}

/// The report on the raw word `value` under the layout that goes by the
/// name `vmem_str`.
///
/// Fails as [`resolve`] does.
pub fn format(vmem_str: &str, value: u64) -> (report: Result<String, VmemError>)
    ensures
        match layout_named(lower(vmem_str@)) {
            Some(layout) => report matches Ok(text) && text@ == layout.report(value),
            None => report matches Err(VmemError::Unknown(name)) && name@ == vmem_str@,
        },
{
    match resolve(vmem_str) {
        Ok(layout) => Ok(layout.render(value)),
        Err(e) => Err(e),
    }
}

} // verus!
