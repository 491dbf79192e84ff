//! The fixed pieces of Rust source that the two expansions are made of.
//! Between them the expansions place the struct's name and generics, the
//! fields' identifiers and types, and the node names as string literals.
use vstd::prelude::*;

verus! {

pub const TO_KDL_HEAD: &'static str = "#[allow(non_snake_case, dead_code, unused_macros, clippy::cast_possible_wrap, clippy::cast_possible_truncation, clippy::cast_sign_loss, clippy::cast_precision_loss, clippy::cast_lossless)] const _: () = { trait __ToKdlValue { fn __to_kdl_value(&self) -> ::kdl::KdlValue; } macro_rules! __kdl_int_to { ($($t:ty),*) => { $( impl __ToKdlValue for $t { fn __to_kdl_value(&self) -> ::kdl::KdlValue { ::kdl::KdlValue::Integer(*self as i128) } } )* }; } __kdl_int_to!(i8, i16, i32, i64, i128, isize, u8, u16, u32, u64, u128, usize); impl __ToKdlValue for f32 { fn __to_kdl_value(&self) -> ::kdl::KdlValue { ::kdl::KdlValue::Float(*self as f64) } } impl __ToKdlValue for f64 { fn __to_kdl_value(&self) -> ::kdl::KdlValue { ::kdl::KdlValue::Float(*self) } } impl __ToKdlValue for bool { fn __to_kdl_value(&self) -> ::kdl::KdlValue { ::kdl::KdlValue::Bool(*self) } } impl __ToKdlValue for String { fn __to_kdl_value(&self) -> ::kdl::KdlValue { ::kdl::KdlValue::String(self.clone()) } } impl __ToKdlValue for str { fn __to_kdl_value(&self) -> ::kdl::KdlValue { ::kdl::KdlValue::String(self.to_string()) } } impl ";

pub const TO_KDL_OPEN: &'static str = " { pub fn to_kdl_document(&self) -> ::kdl::KdlDocument { let mut __doc = ::kdl::KdlDocument::new(); ";

pub const TO_KDL_TAIL: &'static str = " __doc.autoformat(); __doc } pub fn to_kdl_string(&self) -> String { self.to_kdl_document().to_string() } } };";

pub const NODE_NEW: &'static str = "let mut __node = ::kdl::KdlNode::new(";

pub const SCALAR_ENTRY: &'static str = "); __node.push(::kdl::KdlEntry::new(__v.__to_kdl_value())); ";

pub const SCALAR_VEC_ENTRIES: &'static str = "); for __item in __list.iter() { __node.push(::kdl::KdlEntry::new(__item.__to_kdl_value())); } ";

pub const CHILD_BLOCK: &'static str = "); __node.set_children(__v.to_kdl_document()); ";

pub const FOR_EACH_ITEM: &'static str = "for __item in __list.iter() { ";

pub const CHILD_ITEM_BLOCK: &'static str = "); __node.set_children(__item.to_kdl_document()); ";

pub const NODE_PUSH: &'static str = "__doc.nodes_mut().push(__node);";

pub const LOOP_END: &'static str = " }";

pub const IF_SOME: &'static str = "if let ::core::option::Option::Some(";

pub const IF_SOME_SELF: &'static str = ") = &self.";

pub const LET_OPEN: &'static str = "{ let ";

pub const LET_SELF: &'static str = " = &self.";

pub const LET_END: &'static str = "; ";

pub const BLOCK_OPEN: &'static str = " { ";

pub const BLOCK_CLOSE: &'static str = " } ";

pub const FROM_KDL_HEAD: &'static str = "#[allow(non_snake_case, dead_code, unused_macros)] const _: () = { trait __FromKdlValue: Sized { fn __from_kdl_value(__value: &::kdl::KdlValue) -> ::core::result::Result<Self, String>; } macro_rules! __kdl_int_from { ($($t:ty),*) => { $( impl __FromKdlValue for $t { fn __from_kdl_value(__value: &::kdl::KdlValue) -> ::core::result::Result<Self, String> { let __n = __value.as_integer().ok_or_else(|| format!(\"expected an integer, found {}\", __value))?; <$t as ::core::convert::TryFrom<i128>>::try_from(__n).map_err(|_| format!(\"integer {} is out of range for `{}`\", __n, stringify!($t))) } } )* }; } __kdl_int_from!(i8, i16, i32, i64, i128, isize, u8, u16, u32, u64, u128, usize); impl __FromKdlValue for f32 { fn __from_kdl_value(__value: &::kdl::KdlValue) -> ::core::result::Result<Self, String> { __value.as_float().map(|__f| __f as f32).ok_or_else(|| format!(\"expected a float, found {}\", __value)) } } impl __FromKdlValue for f64 { fn __from_kdl_value(__value: &::kdl::KdlValue) -> ::core::result::Result<Self, String> { __value.as_float().ok_or_else(|| format!(\"expected a float, found {}\", __value)) } } impl __FromKdlValue for bool { fn __from_kdl_value(__value: &::kdl::KdlValue) -> ::core::result::Result<Self, String> { __value.as_bool().ok_or_else(|| format!(\"expected a boolean, found {}\", __value)) } } impl __FromKdlValue for String { fn __from_kdl_value(__value: &::kdl::KdlValue) -> ::core::result::Result<Self, String> { __value.as_string().map(|__s| __s.to_string()).ok_or_else(|| format!(\"expected a string, found {}\", __value)) } } impl ";

pub const FROM_KDL_OPEN: &'static str = " { pub fn from_kdl_document(__doc: &::kdl::KdlDocument,) -> ::core::result::Result<Self, ::kdl::KdlError> { let __source = ::std::sync::Arc::new(__doc.to_string()); Self::__from_kdl_in(__doc, &__source).map_err(|__diagnostics| { ::kdl::KdlError { input: __source, diagnostics: __diagnostics } }) } pub fn from_kdl_str(__src: &str) -> ::core::result::Result<Self, ::kdl::KdlError> { let __doc = ::kdl::KdlDocument::parse(__src)?; let __source = ::std::sync::Arc::new(__src.to_string()); Self::__from_kdl_in(&__doc, &__source).map_err(|__diagnostics| { ::kdl::KdlError { input: __source, diagnostics: __diagnostics } }) } #[doc(hidden)] pub fn __from_kdl_in(__doc: &::kdl::KdlDocument, __source: &::std::sync::Arc<String>,) -> ::core::result::Result<Self, ::std::vec::Vec<::kdl::KdlDiagnostic>> { let mut __diags: ::std::vec::Vec<::kdl::KdlDiagnostic> = ::std::vec::Vec::new(); macro_rules! __push { ($span:expr, $msg:expr) => { __diags.push(::kdl::KdlDiagnostic { input: ::std::sync::Arc::clone(__source), span: $span, message: ::core::option::Option::Some($msg), label: ::core::option::Option::None, help: ::core::option::Option::None, severity: ::core::default::Default::default(), }); }; } ";

pub const DIAGNOSTICS_CHECK: &'static str = "if !__diags.is_empty() { return ::core::result::Result::Err(__diags); } ";

pub const BUILD_SELF: &'static str = "::core::result::Result::Ok(Self { ";

pub const FROM_KDL_TAIL: &'static str = " }) } } };";

pub const LET: &'static str = "let ";

pub const ASSIGN: &'static str = " = ";

pub const STMT_END: &'static str = "; ";

pub const FIELD_PREFIX: &'static str = "__kdl_field_";

pub const COLON: &'static str = ": ";

pub const UNWRAP: &'static str = ".unwrap()";

pub const FIELD_SEPARATOR: &'static str = ", ";

pub const GET_NODE: &'static str = "match __doc.get(";

pub const SCALAR_FIND: &'static str = ") { ::core::option::Option::Some(__node) => { match __node.entries().iter().find(|__e| __e.name().is_none()) { ::core::option::Option::Some(__entry) => { match <";

pub const SCALAR_CONVERT: &'static str = " as __FromKdlValue>::__from_kdl_value(__entry.value()) { ::core::result::Result::Ok(__v) => { ";

pub const SCALAR_NO_ARG: &'static str = " } ::core::result::Result::Err(__msg) => { __push!(__entry.span(), __msg); ::core::option::Option::None } } } ::core::option::Option::None => { __push!(__node.span(), format!(\"node `{}` is missing an argument\", ";

pub const CHILD_FIND: &'static str = ") { ::core::option::Option::Some(__node) => { match __node.children() { ::core::option::Option::Some(__children) => { match <";

pub const CHILD_CONVERT: &'static str = ">::__from_kdl_in(__children, __source) { ::core::result::Result::Ok(__v) => { ";

pub const CHILD_NO_BLOCK: &'static str = " } ::core::result::Result::Err(mut __ds) => { __diags.append(&mut __ds); ::core::option::Option::None } } } ::core::option::Option::None => { __push!(__node.span(), format!(\"node `{}` is missing a children block\", ";

pub const NODE_MISSING: &'static str = ")); ::core::option::Option::None } } } ::core::option::Option::None => { ";

pub const MATCH_END: &'static str = " } }";

pub const FOUND_SOME: &'static str = "::core::option::Option::Some(__v)";

pub const FOUND_SOME_SOME: &'static str = "::core::option::Option::Some(::core::option::Option::Some(__v))";

pub const ABSENT_NONE: &'static str = "::core::option::Option::Some(::core::option::Option::None)";

pub const ABSENT_REQUIRED: &'static str = "__push!(__doc.span(), format!(\"missing required node `{}`\", ";

pub const ABSENT_REQUIRED_END: &'static str = ")); ::core::option::Option::None";

pub const SCALAR_VEC_FIND: &'static str = ") { ::core::option::Option::Some(__node) => { let mut __out = ::std::vec::Vec::new(); let mut __ok = true; for __e in __node.entries() { if __e.name().is_none() { match <";

pub const SCALAR_VEC_CONVERT: &'static str = " as __FromKdlValue>::__from_kdl_value(__e.value()) { ::core::result::Result::Ok(__v) => __out.push(__v), ::core::result::Result::Err(__msg) => { __push!(__e.span(), __msg); __ok = false; } } } } ";

pub const SCALAR_VEC_OPTIONAL: &'static str = "if __ok { ::core::option::Option::Some(::core::option::Option::Some(__out)) } else { ::core::option::Option::None } } ::core::option::Option::None => { ::core::option::Option::Some(::core::option::Option::None) } }";

pub const SCALAR_VEC_REQUIRED: &'static str = "if __ok { ::core::option::Option::Some(__out) } else { ::core::option::Option::None } } ::core::option::Option::None => { ::core::option::Option::Some(::std::vec::Vec::new()) } }";

pub const CHILD_VEC_SCAN: &'static str = "{ let mut __out = ::std::vec::Vec::new(); let mut __ok = true; let mut __found = false; for __node in __doc.nodes() { if __node.name().value() == ";

pub const CHILD_VEC_MATCH: &'static str = " { __found = true; match __node.children() { ::core::option::Option::Some(__children) => { match <";

pub const CHILD_VEC_CONVERT: &'static str = ">::__from_kdl_in(__children, __source) { ::core::result::Result::Ok(__v) => __out.push(__v), ::core::result::Result::Err(mut __ds) => { __diags.append(&mut __ds); __ok = false; } } } ::core::option::Option::None => { __push!(__node.span(), format!(\"node `{}` is missing a children block\", ";

pub const CHILD_VEC_NO_BLOCK: &'static str = ")); __ok = false; } } } } ";

pub const CHILD_VEC_OPTIONAL: &'static str = "if !__ok { ::core::option::Option::None } else if __found { ::core::option::Option::Some(::core::option::Option::Some(__out)) } else { ::core::option::Option::Some(::core::option::Option::None) } }";

pub const CHILD_VEC_REQUIRED: &'static str = "let _ = __found; if __ok { ::core::option::Option::Some(__out) } else { ::core::option::Option::None } }";

pub const SPACE: &'static str = " ";

} // verus!
