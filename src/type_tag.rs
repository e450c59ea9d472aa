use vstd::prelude::*;

verus! {

/// A descriptor of a type: the name under which a report shows it, written
/// as the compiler writes type paths.
pub trait TypeTag {
    spec fn tag_spec() -> Seq<char>;

    fn tag() -> (r: String)
        ensures
            r@ == Self::tag_spec(),
    ;
}

impl TypeTag for u8 {
    open spec fn tag_spec() -> Seq<char> {
        "u8"@
    }

    fn tag() -> (r: String) {
        String::from_str("u8")
    }
}

impl TypeTag for u16 {
    open spec fn tag_spec() -> Seq<char> {
        "u16"@
    }

    fn tag() -> (r: String) {
        String::from_str("u16")
    }
}

impl TypeTag for u32 {
    open spec fn tag_spec() -> Seq<char> {
        "u32"@
    }

    fn tag() -> (r: String) {
        String::from_str("u32")
    }
}

impl TypeTag for u64 {
    open spec fn tag_spec() -> Seq<char> {
        "u64"@
    }

    fn tag() -> (r: String) {
        String::from_str("u64")
    }
}

impl TypeTag for usize {
    open spec fn tag_spec() -> Seq<char> {
        "usize"@
    }

    fn tag() -> (r: String) {
        String::from_str("usize")
    }
}

impl TypeTag for str {
    open spec fn tag_spec() -> Seq<char> {
        "str"@
    }

    fn tag() -> (r: String) {
        String::from_str("str")
    }
}

impl<T: TypeTag + ?Sized> TypeTag for &T {
    open spec fn tag_spec() -> Seq<char> {
        "&"@ + T::tag_spec()
    }

    fn tag() -> (r: String) {
        let mut s = String::from_str("&");
        s.append(T::tag().as_str());
        s
    }
}

impl<T: TypeTag> TypeTag for Vec<T> {
    open spec fn tag_spec() -> Seq<char> {
        "alloc::vec::Vec<"@ + T::tag_spec() + ">"@
    }

    fn tag() -> (r: String) {
        let mut s = String::from_str("alloc::vec::Vec<");
        s.append(T::tag().as_str());
        s.append(">");
        s
    }
}

impl<T: TypeTag> TypeTag for Box<T> {
    open spec fn tag_spec() -> Seq<char> {
        "alloc::boxed::Box<"@ + T::tag_spec() + ">"@
    }

    fn tag() -> (r: String) {
        let mut s = String::from_str("alloc::boxed::Box<");
        s.append(T::tag().as_str());
        s.append(">");
        s
    }
}

/// The name of the type of a value, from its descriptor.
pub fn _get_type_of<T: TypeTag>(_value: T) -> (r: String)
    ensures
        r@ == T::tag_spec(),
{
    T::tag()
}

} // verus!
