//! Bodies served with a fixed content type.
use vstd::prelude::*;
use vstd::std_specs::convert::FromSpecImpl;

verus! {

/// A body served as `text/css`.
#[derive(Clone, Copy, Debug)]
pub struct Css<T>(pub T);

/// A body served as `application/javascript`.
#[derive(Clone, Copy, Debug)]
pub struct Js<T>(pub T);

/// The content type a stylesheet is served with.
pub fn css_content_type() -> (res: &'static str)
    ensures
        res@ == "text/css"@,
{
    "text/css"
}

/// The content type a script is served with.
pub fn js_content_type() -> (res: &'static str)
    ensures
        res@ == "application/javascript"@,
{
    "application/javascript"
}

impl<T> From<T> for Css<T> {
    fn from(inner: T) -> (res: Self) {
        Css(inner)
    }
}

impl<T> FromSpecImpl<T> for Css<T> {
    open spec fn obeys_from_spec() -> bool {
        true
    }

    open spec fn from_spec(v: T) -> Self {
        Css(v)
    }
}

impl<T> From<T> for Js<T> {
    fn from(inner: T) -> (res: Self) {
        Js(inner)
    }
}

impl<T> FromSpecImpl<T> for Js<T> {
    open spec fn obeys_from_spec() -> bool {
        true
    }

    open spec fn from_spec(v: T) -> Self {
        Js(v)
    }
}

} // verus!
