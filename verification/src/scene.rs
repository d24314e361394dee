//! A scene: the objects that one file describes.

use vstd::prelude::*;
use crate::object::Object;
use crate::LocalizedStringMap;

verus! {

/// A named set of objects.
#[derive(Clone, Debug, PartialEq, Eq)]
pub struct Scene<P, C> {
    pub name: LocalizedStringMap,
    pub objects: Vec<Object<P, C>>,
}

} // verus!
