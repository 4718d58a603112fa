//! Bindings of register declarations: from the attribute a register type
//! carries (`addr`, `ty`) and the kind of register asked for, to its address,
//! its address type and its permission tags.

use vstd::prelude::*;
use vstd::std_specs::iter::IteratorSpec;

verus! {

/// The permission tags a register is given.
#[derive(Debug, Clone, Copy, PartialEq, Eq, Structural)]
pub struct Permissions {
    /// Tagged `ReadableRegister`.
    pub readable: bool,
    /// Tagged `WritableRegister`.
    pub writable: bool,
    /// Tagged `EditableRegister`.
    pub editable: bool,
}

/// The kinds of register a declaration can ask for.
#[derive(Debug, Clone, Copy, PartialEq, Eq, Structural)]
pub enum RegisterKind {
    /// Readable only.
    ReadOnly,
    /// Writable only.
    WriteOnly,
    /// Editable only.
    EditOnly,
    /// Readable and editable.
    ReadEdit,
    /// Readable, writable and editable.
    ReadWrite,
}

impl RegisterKind {
    /// The tags each kind grants.
    pub open spec fn spec_permissions(self) -> Permissions {
        match self {
            RegisterKind::ReadOnly => Permissions { readable: true, writable: false, editable: false },
            RegisterKind::WriteOnly => Permissions { readable: false, writable: true, editable: false },
            RegisterKind::EditOnly => Permissions { readable: false, writable: false, editable: true },
            RegisterKind::ReadEdit => Permissions { readable: true, writable: false, editable: true },
            RegisterKind::ReadWrite => Permissions { readable: true, writable: true, editable: true },
        }
    }

    /// The tags this kind grants.
    pub fn permissions(&self) -> (p: Permissions)
        ensures
            p == self.spec_permissions(),
    {
        match self {
            RegisterKind::ReadOnly => Permissions { readable: true, writable: false, editable: false },
            RegisterKind::WriteOnly => Permissions { readable: false, writable: true, editable: false },
            RegisterKind::EditOnly => Permissions { readable: false, writable: false, editable: true },
            RegisterKind::ReadEdit => Permissions { readable: true, writable: false, editable: true },
            RegisterKind::ReadWrite => Permissions { readable: true, writable: true, editable: true },
        }
    }
}

/// The value given to `addr`, as written in the attribute.
#[derive(Debug)]
pub enum AttrValue {
    /// A string literal, by its contents: the text of a path or pattern
    /// (`"Address::Register1"`).
    Str(String),
    /// Any other literal, by its text (`42`, `0x01`).
    Lit(String),
}

/// The address of a register, as an expression to bind.
#[derive(Debug)]
pub enum AddressValue {
    /// A literal, by its text.
    Lit(String),
    /// A pattern (a path to a constant or an enum variant), by its text.
    Pat(String),
}

/// The attribute of a register declaration, its keys as given.
#[derive(Debug)]
pub struct RegisterAttr {
    /// The address; required.
    pub addr: Option<AttrValue>,
    /// The text of the address type; `u8` when absent.
    pub ty: Option<String>,
}

/// What a declaration binds: the register's name, address, address type and tags.
#[derive(Debug)]
pub struct RegisterBinding {
    /// The register type's name.
    pub name: String,
    /// Its address.
    pub address: AddressValue,
    /// The text of its address type.
    pub address_type: String,
    /// Its permission tags.
    pub permissions: Permissions,
}

/// Why a declaration cannot be bound.
#[derive(Debug, Clone, Copy, PartialEq, Eq, Structural)]
pub enum BindingError {
    /// `addr` is absent.
    MissingAddress,
    /// `addr` is a string that does not hold a path or pattern.
    MalformedAddress,
    /// `ty` does not hold a type.
    MalformedType,
}

impl BindingError {
    /// The attribute key the error is about.
    pub fn attribute(&self) -> (r: &'static str)
        ensures
            r@ == (match self {
                BindingError::MalformedType => seq!['t', 'y'],
                _ => seq!['a', 'd', 'd', 'r'],
            }),
    {
        match self {
            BindingError::MalformedType => {
                proof {
                    reveal_strlit("ty");
                }
                "ty"
            },
            _ => {
                proof {
                    reveal_strlit("addr");
                }
                "addr"
            },
        }
    }
}

/// Whether a text parses as a Rust pattern.
pub uninterp spec fn pattern_syntax(s: Seq<char>) -> bool;

/// Whether a text parses as a Rust type.
pub uninterp spec fn type_syntax(s: Seq<char>) -> bool;

/// Whether a C string literal opens at position `e - 1` or `e - 2` of `s` and
/// has reached `e`: `c"`, `cr"` or `cr#` ending at `e`.
pub open spec fn c_string_opening_ends_at(s: Seq<char>, e: int) -> bool {
    ||| 1 <= e < s.len() && s[e - 1] == 'c' && s[e] == '"'
    ||| 2 <= e < s.len() && s[e - 2] == 'c' && s[e - 1] == 'r' && (s[e] == '"' || s[e] == '#')
}

/// Whether a text holds no opening of a C string literal (`c"`, `cr"`,
/// `cr#`). syn's literal parser has no case for those literals and panics on
/// them, so such a text is never handed to it.
pub open spec fn free_of_c_strings(s: Seq<char>) -> bool {
    forall|e: int| 0 <= e < s.len() ==> !c_string_opening_ends_at(s, e)
}

/// Whether the text holds no opening of a C string literal.
pub fn is_free_of_c_strings(s: &str) -> (r: bool)
    ensures
        r == free_of_c_strings(s@),
{
    broadcast use vstd::string::axiom_spec_iter, vstd::string::next_postcondition;

    let mut chars = s.chars();
    let ghost k: int = 0;
    let mut prev2: char = ' ';
    let mut prev1: char = ' ';
    loop
        invariant
            0 <= k <= s@.len(),
            chars.obeys_prophetic_iter_laws(),
            chars.remaining() == s@.subrange(k, s@.len() as int),
            k >= 1 ==> prev1 == s@[k - 1],
            k < 1 ==> prev1 == ' ',
            k >= 2 ==> prev2 == s@[k - 2],
            k < 2 ==> prev2 == ' ',
            forall|e: int| 0 <= e < k ==> !c_string_opening_ends_at(s@, e),
        decreases s@.len() - k,
    {
        match chars.next() {
            None => {
                return true;
            },
            Some(c) => {
                assert(c == s@[k]);
                if (prev1 == 'c' && c == '"') || (prev2 == 'c' && prev1 == 'r' && (c == '"' || c
                    == '#')) {
                    assert(c_string_opening_ends_at(s@, k));
                    return false;
                }
                proof {
                    k = k + 1;
                }
                prev2 = prev1;
                prev1 = c;
            },
        }
    }
}

/// Relies on `syn::parse_str::<syn::Pat>`: whether the text parses as a
/// pattern (a path, an enum variant, a literal); the answer depends on the
/// text alone. A text that opens a C string literal makes syn panic, so it is
/// left out.
#[verifier::external_body]
fn parses_as_pattern(s: &str) -> (r: bool)
    requires
        free_of_c_strings(s@),
    ensures
        r == pattern_syntax(s@),
{
    syn::parse_str::<syn::Pat>(s).is_ok()
}

/// Relies on `syn::parse_str::<syn::Type>`: whether the text parses as a
/// type; the answer depends on the text alone. A text that opens a C string
/// literal makes syn panic, so it is left out.
#[verifier::external_body]
fn parses_as_type(s: &str) -> (r: bool)
    requires
        free_of_c_strings(s@),
    ensures
        r == type_syntax(s@),
{
    syn::parse_str::<syn::Type>(s).is_ok()
}

/// The address type of a register whose attribute gives none.
pub open spec fn default_address_type() -> Seq<char> {
    seq!['u', '8']
}

/// Whether `address` is what the attribute value `value` binds.
pub open spec fn binds_address(value: AttrValue, address: AddressValue) -> bool {
    match (value, address) {
        (AttrValue::Str(s), AddressValue::Pat(p)) => p@ == s@,
        (AttrValue::Lit(t), AddressValue::Lit(l)) => l@ == t@,
        _ => false,
    }
}

/// The address an attribute value binds, where the string form, if any, has
/// been checked: `parses` tells whether its text is a pattern.
pub fn resolve_address(value: AttrValue, parses: bool) -> (r: Result<AddressValue, BindingError>)
    ensures
        match value {
            AttrValue::Str(_) if !parses => r == Err::<AddressValue, _>(BindingError::MalformedAddress),
            _ => r matches Ok(a) && binds_address(value, a),
        },
{
    match value {
        AttrValue::Str(s) => {
            if parses {
                Ok(AddressValue::Pat(s))
            } else {
                Err(BindingError::MalformedAddress)
            }
        },
        AttrValue::Lit(t) => Ok(AddressValue::Lit(t)),
    }
}

/// Whether a string given to `addr` is accepted as the text of a pattern: it
/// opens no C string literal and parses.
pub open spec fn pattern_text(s: Seq<char>) -> bool {
    free_of_c_strings(s) && pattern_syntax(s)
}

/// Whether a text given to `ty` is accepted as a type: it opens no C string
/// literal and parses.
pub open spec fn type_text(s: Seq<char>) -> bool {
    free_of_c_strings(s) && type_syntax(s)
}

/// The address an attribute value binds: a string holds the text of a
/// pattern, which must be free of C string literals and parse; any other
/// literal is the address itself.
pub fn address_from_value(value: AttrValue) -> (r: Result<AddressValue, BindingError>)
    ensures
        match value {
            AttrValue::Str(s) if !pattern_text(s@) => r == Err::<AddressValue, _>(
                BindingError::MalformedAddress,
            ),
            _ => r matches Ok(a) && binds_address(value, a),
        },
{
    let parses = match &value {
        AttrValue::Str(s) => is_free_of_c_strings(s.as_str()) && parses_as_pattern(s.as_str()),
        AttrValue::Lit(_) => true,
    };
    resolve_address(value, parses)
}

/// The address type an attribute binds, where a given type has been checked:
/// `parses` tells whether its text is a type.
pub fn resolve_type(ty: Option<String>, parses: bool) -> (r: Result<String, BindingError>)
    ensures
        match ty {
            None => r matches Ok(t) && t@ == default_address_type(),
            Some(given) => if parses {
                r matches Ok(t) && t@ == given@
            } else {
                r == Err::<String, _>(BindingError::MalformedType)
            },
        },
{
    match ty {
        None => {
            proof {
                reveal_strlit("u8");
            }
            Ok("u8".to_owned())
        },
        Some(given) => {
            if parses {
                Ok(given)
            } else {
                Err(BindingError::MalformedType)
            }
        },
    }
}

/// The address type an attribute binds: the given one, which must be free of
/// C string literals and parse as a type, or `u8`.
pub fn type_from_value(ty: Option<String>) -> (r: Result<String, BindingError>)
    ensures
        match ty {
            None => r matches Ok(t) && t@ == default_address_type(),
            Some(given) => if type_text(given@) {
                r matches Ok(t) && t@ == given@
            } else {
                r == Err::<String, _>(BindingError::MalformedType)
            },
        },
{
    let parses = match &ty {
        Some(given) => is_free_of_c_strings(given.as_str()) && parses_as_type(given.as_str()),
        None => true,
    };
    resolve_type(ty, parses)
}

/// The error a register attribute is refused with, if any: a missing `addr`,
/// then a malformed `addr`, then a malformed `ty`.
pub open spec fn attr_error(attr: RegisterAttr) -> Option<BindingError> {
    match attr.addr {
        None => Some(BindingError::MissingAddress),
        Some(AttrValue::Str(s)) if !pattern_text(s@) => Some(BindingError::MalformedAddress),
        _ => match attr.ty {
            Some(t) if !type_text(t@) => Some(BindingError::MalformedType),
            _ => None,
        },
    }
}

/// Binds the register named `name`, declared as `kind` with the attribute
/// `attr`: its address, its address type (`u8` unless given) and the tags
/// of its kind.
pub fn bind_register(kind: RegisterKind, name: String, attr: RegisterAttr) -> (r: Result<
    RegisterBinding,
    BindingError,
>)
    ensures
        match attr_error(attr) {
            Some(e) => r == Err::<RegisterBinding, _>(e),
            None => r matches Ok(b) && {
                &&& b.name@ == name@
                &&& binds_address(attr.addr->Some_0, b.address)
                &&& b.address_type@ == match attr.ty {
                    Some(t) => t@,
                    None => default_address_type(),
                }
                &&& b.permissions == kind.spec_permissions()
            },
        },
{
    let value = match attr.addr {
        Some(v) => v,
        None => {
            return Err(BindingError::MissingAddress);
        },
    };
    let address = match address_from_value(value) {
        Ok(a) => a,
        Err(e) => {
            return Err(e);
        },
    };
    let address_type = match type_from_value(attr.ty) {
        Ok(t) => t,
        Err(e) => {
            return Err(e);
        },
    };
    Ok(RegisterBinding { name, address, address_type, permissions: kind.permissions() })
}

} // verus!
