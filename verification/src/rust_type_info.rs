//! What the generated code knows of the Rust type of a shader type: its
//! size and alignment, and how a field's initializer converts into its
//! stored representation.

use vstd::prelude::*;

use crate::layout::{round_up, round_up_spec, ScalarKind};
use crate::text::{chars_of, string_of};

verus! {

/// Conversion from the init-friendly representation of a field to the
/// emitted storage type.
pub enum RustTypeInitConversion {
    /// An array whose elements convert with the inner conversion.
    Array(Box<RustTypeInitConversion>),
    /// A padded array element, whose value first converts with the inner
    /// conversion when there is one.
    PaddedArrayElement(Option<Box<RustTypeInitConversion>>),
}

/// Whether a conversion goes through the padded array-element helper type:
/// a padded element does, and an array does when its elements do.
pub open spec fn spec_uses_array_element_helper(c: RustTypeInitConversion) -> bool
    decreases c,
{
    match c {
        RustTypeInitConversion::Array(inner) => spec_uses_array_element_helper(*inner),
        RustTypeInitConversion::PaddedArrayElement(_) => true,
    }
}

impl RustTypeInitConversion {
    /// Whether the conversion uses the padded array-element helper type.
    pub fn uses_array_element_helper(&self) -> (r: bool)
        ensures
            r == spec_uses_array_element_helper(*self),
        decreases self,
    {
        match self {
            RustTypeInitConversion::Array(inner) => inner.uses_array_element_helper(),
            RustTypeInitConversion::PaddedArrayElement(_) => true,
        }
    }
}


/// The layout of the Rust type of a shader type, and the conversion from
/// its init-friendly representation when it has one.
pub struct RustTypeInfo {
    /// Size in bytes; none for a runtime-sized array.
    pub size: Option<usize>,
    /// Alignment in bytes (a power of two).
    pub alignment: u32,
    /// How an init-friendly value converts into the stored type, for a type
    /// with tuple padding.
    pub init_conversion: Option<RustTypeInitConversion>,
}

/// The size rounded up to the alignment, for a sized type.
pub open spec fn aligned_size_spec(size: Option<usize>, alignment: u32) -> Option<int> {
    match size {
        Some(s) => Some(round_up_spec(alignment, s as u32)),
        None => None,
    }
}

impl RustTypeInfo {
    /// The alignment in bytes.
    pub fn alignment_value(&self) -> (r: usize)
        requires
            self.alignment > 0,
        ensures
            r == round_up_spec(self.alignment, 1),
            r == self.alignment,
    {
        let r = round_up(self.alignment, 1);
        let a = self.alignment;
        assert(r == a) by (nonlinear_arith)
            requires
                1 <= r < 1 + a,
                r % a == 0,
                a > 0,
        ;
        r as usize
    }

    /// The size rounded up to the alignment; none for a runtime-sized array.
    pub fn aligned_size(&self) -> (r: Option<usize>)
        requires
            self.alignment > 0,
            self.size matches Some(s) ==> s + self.alignment - 1 <= u32::MAX,
        ensures
            match r {
                Some(x) => aligned_size_spec(self.size, self.alignment) == Some(x as int),
                None => self.size is None,
            },
    {
        match self.size {
            Some(s) => Some(round_up(self.alignment, s as u32) as usize),
            None => None,
        }
    }

    /// Whether the type is a runtime-sized array.
    pub fn is_dynamic_array(&self) -> (r: bool)
        ensures
            r == self.size is None,
    {
        self.size.is_none()
    }

    /// Whether the init conversion goes through the padded array-element
    /// helper type.
    pub fn uses_array_element_helper(&self) -> (r: bool)
        ensures
            r == (self.init_conversion matches Some(c) && spec_uses_array_element_helper(c)),
    {
        match &self.init_conversion {
            Some(c) => c.uses_array_element_helper(),
            None => false,
        }
    }
}


/// A copy of a conversion.
pub fn clone_conversion(c: &RustTypeInitConversion) -> (r: RustTypeInitConversion)
    ensures
        r == *c,
    decreases c,
{
    match c {
        RustTypeInitConversion::Array(inner) => RustTypeInitConversion::Array(
            Box::new(clone_conversion(inner)),
        ),
        RustTypeInitConversion::PaddedArrayElement(inner) => match inner {
            Some(i) => RustTypeInitConversion::PaddedArrayElement(
                Some(Box::new(clone_conversion(i))),
            ),
            None => RustTypeInitConversion::PaddedArrayElement(None),
        },
    }
}

/// A copy of an optional conversion.
fn clone_opt_conversion(c: &Option<RustTypeInitConversion>) -> (r: Option<RustTypeInitConversion>)
    ensures
        r == *c,
{
    match c {
        Some(x) => Some(clone_conversion(x)),
        None => None,
    }
}

/// The optional conversion, boxed.
pub open spec fn boxed(c: Option<RustTypeInitConversion>) -> Option<Box<RustTypeInitConversion>> {
    match c {
        Some(x) => Some(Box::new(x)),
        None => None,
    }
}

/// How the elements of an array are stored.
#[derive(Debug, Clone, Copy, PartialEq, Eq, Structural)]
pub enum ArrayStorage {
    /// As values of the element type.
    Elements,
    /// As byte blocks of the array stride (`WgslBindgenArrayElement`), since
    /// the element type is smaller than the stride.
    PaddedElements,
    /// As a growable vector (runtime-sized arrays, `encase`).
    Vector,
}

/// The layout and conversion of a fixed-size array of `count` elements at
/// the given stride: in a byte-copied layout, elements smaller than the
/// stride are stored padded, and an element conversion carries over.
pub open spec fn constant_array_type(
    element_size: Option<usize>,
    element_conversion: Option<RustTypeInitConversion>,
    count: u32,
    stride: u32,
    bytemuck: bool,
) -> (Option<usize>, Option<RustTypeInitConversion>, ArrayStorage) {
    let total = (count * stride) as usize;
    let esize = match element_size {
        Some(s) => s as int,
        None => 0,
    };
    if bytemuck && esize < stride {
        (
            Some(total),
            Some(
                RustTypeInitConversion::Array(
                    Box::new(RustTypeInitConversion::PaddedArrayElement(boxed(element_conversion))),
                ),
            ),
            ArrayStorage::PaddedElements,
        )
    } else if bytemuck && element_conversion is Some {
        (
            Some(total),
            Some(RustTypeInitConversion::Array(Box::new(element_conversion.unwrap()))),
            ArrayStorage::Elements,
        )
    } else {
        (Some(total), None, ArrayStorage::Elements)
    }
}

/// The Rust type of a fixed-size array of `count` elements of type `element`
/// at the given stride and alignment, and how its elements are stored.
pub fn constant_array_type_info(
    element: &RustTypeInfo,
    count: u32,
    stride: u32,
    alignment: u32,
    strategy: crate::options::WgslTypeSerializeStrategy,
) -> (r: (RustTypeInfo, ArrayStorage))
    requires
        count * stride <= usize::MAX,
    ensures
        (r.0.size, r.0.init_conversion, r.1) == constant_array_type(
            element.size,
            element.init_conversion,
            count,
            stride,
            strategy == crate::options::WgslTypeSerializeStrategy::Bytemuck,
        ),
        r.0.alignment == alignment,
{
    let total = (count as usize) * (stride as usize);
    let bytemuck = match strategy {
        crate::options::WgslTypeSerializeStrategy::Bytemuck => true,
        crate::options::WgslTypeSerializeStrategy::Encase => false,
    };
    let element_size: usize = match element.size {
        Some(s) => s,
        None => 0,
    };
    if bytemuck && element_size < stride as usize {
        let inner = match &element.init_conversion {
            Some(c) => Some(Box::new(clone_conversion(c))),
            None => None,
        };
        (
            RustTypeInfo {
                size: Some(total),
                alignment,
                init_conversion: Some(
                    RustTypeInitConversion::Array(Box::new(RustTypeInitConversion::PaddedArrayElement(inner))),
                ),
            },
            ArrayStorage::PaddedElements,
        )
    } else if bytemuck && element.init_conversion.is_some() {
        let c = clone_opt_conversion(&element.init_conversion);
        let c = match c {
            Some(c) => c,
            None => RustTypeInitConversion::PaddedArrayElement(None),
        };
        (
            RustTypeInfo {
                size: Some(total),
                alignment,
                init_conversion: Some(RustTypeInitConversion::Array(Box::new(c))),
            },
            ArrayStorage::Elements,
        )
    } else {
        (RustTypeInfo { size: Some(total), alignment, init_conversion: None }, ArrayStorage::Elements)
    }
}

/// The layout and conversion of a runtime-sized array at the given stride:
/// a vector of elements for `encase`; for a byte-copied layout, padded
/// blocks when the element type is smaller than the stride, or the
/// elements with their conversion.
pub open spec fn dynamic_array_type(
    element_size: Option<usize>,
    element_conversion: Option<RustTypeInitConversion>,
    stride: u32,
    bytemuck: bool,
) -> (Option<RustTypeInitConversion>, ArrayStorage) {
    let esize = match element_size {
        Some(s) => s as int,
        None => 0,
    };
    if !bytemuck {
        (None, ArrayStorage::Vector)
    } else if esize < stride {
        (
            Some(RustTypeInitConversion::PaddedArrayElement(boxed(element_conversion))),
            ArrayStorage::PaddedElements,
        )
    } else {
        (element_conversion, ArrayStorage::Elements)
    }
}

/// The Rust type of a runtime-sized array of elements of type `element` at
/// the given stride and alignment, and how its elements are stored.
pub fn dynamic_array_type_info(
    element: &RustTypeInfo,
    stride: u32,
    alignment: u32,
    strategy: crate::options::WgslTypeSerializeStrategy,
) -> (r: (RustTypeInfo, ArrayStorage))
    ensures
        r.0.size is None,
        r.0.alignment == alignment,
        (r.0.init_conversion, r.1) == dynamic_array_type(
            element.size,
            element.init_conversion,
            stride,
            strategy == crate::options::WgslTypeSerializeStrategy::Bytemuck,
        ),
{
    match strategy {
        crate::options::WgslTypeSerializeStrategy::Encase => (
            RustTypeInfo { size: None, alignment, init_conversion: None },
            ArrayStorage::Vector,
        ),
        crate::options::WgslTypeSerializeStrategy::Bytemuck => {
            let element_size: usize = match element.size {
                Some(s) => s,
                None => 0,
            };
            if element_size < stride as usize {
                let inner = match &element.init_conversion {
                    Some(c) => Some(Box::new(clone_conversion(c))),
                    None => None,
                };
                (
                    RustTypeInfo {
                        size: None,
                        alignment,
                        init_conversion: Some(RustTypeInitConversion::PaddedArrayElement(inner)),
                    },
                    ArrayStorage::PaddedElements,
                )
            } else {
                (
                    RustTypeInfo {
                        size: None,
                        alignment,
                        init_conversion: clone_opt_conversion(&element.init_conversion),
                    },
                    ArrayStorage::Elements,
                )
            }
        },
    }
}

/// The Rust type of a scalar of the given kind and width in bytes, and its
/// size, where the bindings have one.
pub open spec fn scalar_rust_type(kind: ScalarKind, width: u8) -> Option<(Seq<char>, usize)> {
    match (kind, width) {
        (ScalarKind::Sint, 1) => Some(("i8"@, 1)),
        (ScalarKind::Uint, 1) => Some(("u8"@, 1)),
        (ScalarKind::Sint, 2) => Some(("i16"@, 2)),
        (ScalarKind::Uint, 2) => Some(("u16"@, 2)),
        (ScalarKind::Sint, 4) => Some(("i32"@, 4)),
        (ScalarKind::Uint, 4) => Some(("u32"@, 4)),
        (ScalarKind::Float, 2) => Some(("half::f16"@, 2)),
        (ScalarKind::Float, 4) => Some(("f32"@, 4)),
        (ScalarKind::Float, 8) => Some(("f64"@, 8)),
        (ScalarKind::Bool, 1) => Some(("bool"@, 1)),
        _ => None,
    }
}

/// The Rust type of a scalar that the bindings support, and its layout with
/// the given alignment.
pub fn rust_scalar_type(kind: ScalarKind, width: u8, alignment: u32) -> (r: (String, RustTypeInfo))
    requires
        scalar_rust_type(kind, width) is Some,
    ensures
        scalar_rust_type(kind, width) == Some((r.0@, r.1.size.unwrap())),
        r.1.size is Some,
        r.1.alignment == alignment,
        r.1.init_conversion is None,
{
    let (name, size): (&str, usize) = match (kind, width) {
        (ScalarKind::Sint, 1) => ("i8", 1),
        (ScalarKind::Uint, 1) => ("u8", 1),
        (ScalarKind::Sint, 2) => ("i16", 2),
        (ScalarKind::Uint, 2) => ("u16", 2),
        (ScalarKind::Sint, 4) => ("i32", 4),
        (ScalarKind::Uint, 4) => ("u32", 4),
        (ScalarKind::Float, 2) => ("half::f16", 2),
        (ScalarKind::Float, 4) => ("f32", 4),
        (ScalarKind::Float, 8) => ("f64", 8),
        _ => ("bool", 1),
    };
    (string_of(&chars_of(name)), RustTypeInfo { size: Some(size), alignment, init_conversion: None })
}

} // verus!
