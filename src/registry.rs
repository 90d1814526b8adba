//! Registry values and the vendor/product metadata of serial ports.

use vstd::prelude::*;
use vstd::string::{StrSliceExecFns, StringExecFns};
use crate::keyed::{cache_map, keys_unique, position, upsert};
use crate::wchar::{from_wide_bytes, le_units, utf16_lossy, wide_prefix};

verus! {

/// No value type.
pub const REG_NONE: u32 = 0;
/// A NUL terminated string.
pub const REG_SZ: u32 = 1;
/// A NUL terminated string with unexpanded environment references.
pub const REG_EXPAND_SZ: u32 = 2;
/// Binary data.
pub const REG_BINARY: u32 = 3;
/// A 32-bit little-endian number.
pub const REG_DWORD: u32 = 4;
/// A 32-bit big-endian number.
pub const REG_DWORD_BIG_ENDIAN: u32 = 5;
/// A sequence of NUL terminated strings.
pub const REG_MULTI_SZ: u32 = 7;
/// A 64-bit little-endian number.
pub const REG_QWORD: u32 = 11;

/// The pattern of the vendor and product tokens in a device path: `vid_` or
/// `pid_` and four hex digits, in either case.
pub const ID_PATTERN: &'static str = "(?i)(vid_|pid_)[0-9a-f]{4}";

/// The number that little-endian bytes encode.
pub open spec fn le_value(b: Seq<u8>) -> nat
    decreases b.len(),
{
    if b.len() == 0 {
        0
    } else {
        (b[0] + 256 * le_value(b.drop_first())) as nat
    }
}

/// The number that big-endian bytes encode.
pub open spec fn be_value(b: Seq<u8>) -> nat
    decreases b.len(),
{
    if b.len() == 0 {
        0
    } else {
        (be_value(b.drop_last()) * 256 + b.last()) as nat
    }
}

/// `256` to the power `n`.
pub open spec fn pow256(n: nat) -> nat
    decreases n,
{
    if n == 0 {
        1
    } else {
        256 * pow256((n - 1) as nat)
    }
}

/// Whether a value of type `ty` holds a string.
pub open spec fn is_string_type(ty: u32) -> bool {
    ty == REG_SZ || ty == REG_EXPAND_SZ
}

/// The string that a string value holds.
pub open spec fn reg_string(data: Seq<u8>) -> Seq<char> {
    utf16_lossy(wide_prefix(le_units(data)))
}

/// The label of a value type in messages.
pub open spec fn code_label(code: u32) -> Seq<char> {
    if code == REG_BINARY {
        "[BINARY]"@
    } else if code == REG_DWORD {
        "[DWORD]"@
    } else if code == REG_DWORD_BIG_ENDIAN {
        "[DWORD_BIG_ENDIAN]"@
    } else if code == REG_QWORD {
        "[QWORD]"@
    } else if code == REG_SZ {
        "[SZ]"@
    } else if code == REG_EXPAND_SZ {
        "[EXPAND_SZ]"@
    } else if code == REG_MULTI_SZ {
        "[MULTI_SZ]"@
    } else if code == REG_NONE {
        "[NONE]"@
    } else {
        "unsupported registry value type"@
    }
}

/// What `str::to_lowercase` makes of a string.
pub uninterp spec fn lower_of(s: Seq<char>) -> Seq<char>;

/// The text of each match of `pattern` in `text`, left to right, as
/// `regex::Regex::find_iter` reports them.
pub uninterp spec fn regex_find_all(pattern: Seq<char>, text: Seq<char>) -> Seq<Seq<char>>;

/// The id that a token such as `vid_2fe3` carries: what follows its first four characters.
pub open spec fn id_of(token: Seq<char>) -> Seq<char> {
    if token.len() >= 4 {
        token.subrange(4, token.len() as int)
    } else {
        Seq::empty()
    }
}

/// The vendor and product that a list of tokens gives: the ids of its last
/// two, lower-cased.
pub open spec fn meta_of_tokens(t: Seq<Seq<char>>) -> (Seq<char>, Seq<char>) {
    (lower_of(id_of(t[t.len() - 2])), lower_of(id_of(t[t.len() - 1])))
}

/// The tokens of a device path.
pub open spec fn id_tokens(path: Seq<char>) -> Seq<Seq<char>> {
    regex_find_all(ID_PATTERN@, path)
}

/// The metadata of each device entry, by port; a later entry of a port wins.
pub open spec fn device_map(devices: Seq<(String, RegistryData)>) -> Map<Seq<char>, (Seq<char>, Seq<char>)>
    decreases devices.len(),
{
    if devices.len() == 0 {
        Map::empty()
    } else {
        device_map(devices.drop_last()).insert(
            devices.last().0@,
            meta_of_tokens(id_tokens(reg_string(devices.last().1.data@))),
        )
    }
}

/// The names of the connected ports.
pub open spec fn connected_names(connected: Seq<RegistryData>) -> Set<Seq<char>> {
    Set::new(|n: Seq<char>| exists|i: int| 0 <= i < connected.len() && reg_string(connected[i].data@) == n)
}

/// The entries of a list of `(port, meta)` pairs, by port, as views.
pub open spec fn meta_map(c: Seq<(String, PortMeta)>) -> Map<Seq<char>, (Seq<char>, Seq<char>)> {
    cache_map(c).map_values(|m: PortMeta| m@)
}

proof fn lemma_le_step(b: Seq<u8>, i: int)
    requires
        0 <= i < b.len(),
    ensures
        le_value(b.subrange(i, b.len() as int)) == b[i] + 256 * le_value(b.subrange(i + 1, b.len() as int)),
{
    assert(b.subrange(i, b.len() as int).drop_first() =~= b.subrange(i + 1, b.len() as int));
}

proof fn lemma_pow256_7()
    ensures
        pow256(7) == 0x100000000000000,
{
    reveal_with_fuel(pow256, 8);
}

proof fn lemma_pow256_mono(a: nat, b: nat)
    requires
        a <= b,
    ensures
        pow256(a) <= pow256(b),
    decreases b,
{
    if a < b {
        lemma_pow256_mono(a, (b - 1) as nat);
    }
}

/// The number that at most eight little-endian bytes encode.
fn le_u64(b: &[u8]) -> (r: u64)
    requires
        b@.len() <= 8,
    ensures
        r == le_value(b@),
{
    let n = b.len();
    let mut acc: u64 = 0;
    let mut i: usize = n;
    while i > 0
        invariant
            i <= n == b@.len() <= 8,
            acc == le_value(b@.subrange(i as int, n as int)),
            acc < pow256((n - i) as nat),
        decreases i,
    {
        proof {
            lemma_le_step(b@, i - 1);
            lemma_pow256_mono((n - i) as nat, 7);
            lemma_pow256_7();
            let p = pow256((n - i) as nat);
            let x = b@[i - 1];
            assert(x + 256 * acc < 256 * p && 256 * p <= 0x10000000000000000) by (nonlinear_arith)
                requires
                    acc < p,
                    p <= 0x100000000000000,
                    x < 256,
            ;
        }
        acc = b[i - 1] as u64 + 256 * acc;
        i = i - 1;
    }
    assert(b@.subrange(0, n as int) =~= b@);
    acc
}

/// The number that at most eight big-endian bytes encode.
fn be_u64(b: &[u8]) -> (r: u64)
    requires
        b@.len() <= 8,
    ensures
        r == be_value(b@),
{
    let n = b.len();
    let mut acc: u64 = 0;
    let mut i: usize = 0;
    while i < n
        invariant
            i <= n == b@.len() <= 8,
            acc == be_value(b@.take(i as int)),
            acc < pow256(i as nat),
        decreases n - i,
    {
        proof {
            assert(b@.take(i + 1).drop_last() =~= b@.take(i as int));
            lemma_pow256_mono(i as nat, 7);
            lemma_pow256_7();
            let p = pow256(i as nat);
            let x = b@[i as int];
            assert(acc * 256 + x < p * 256 && p * 256 <= 0x10000000000000000) by (nonlinear_arith)
                requires
                    acc < p,
                    p <= 0x100000000000000,
                    x < 256,
            ;
        }
        acc = acc * 256 + b[i] as u64;
        i = i + 1;
    }
    assert(b@.take(n as int) =~= b@);
    acc
}

impl UnexpectedRegistryData {
    /// The label of a value type in messages.
    pub fn code_to_str(code: u32) -> (r: &'static str)
        ensures
            r@ == code_label(code),
    {
        if code == REG_BINARY {
            "[BINARY]"
        } else if code == REG_DWORD {
            "[DWORD]"
        } else if code == REG_DWORD_BIG_ENDIAN {
            "[DWORD_BIG_ENDIAN]"
        } else if code == REG_QWORD {
            "[QWORD]"
        } else if code == REG_SZ {
            "[SZ]"
        } else if code == REG_EXPAND_SZ {
            "[EXPAND_SZ]"
        } else if code == REG_MULTI_SZ {
            "[MULTI_SZ]"
        } else if code == REG_NONE {
            "[NONE]"
        } else {
            "unsupported registry value type"
        }
    }

    /// What went wrong, in words: `Expected [SZ], found [DWORD]`.
    pub fn message(&self) -> (r: String)
        ensures
            r@ == "Expected "@ + code_label(self.expect) + ", found "@ + code_label(self.actual),
    {
        let r = String::from_str("Expected ");
        let r = r.concat(UnexpectedRegistryData::code_to_str(self.expect));
        let r = r.concat(", found ");
        r.concat(UnexpectedRegistryData::code_to_str(self.actual))
    }

    /// The value that was refused.
    pub fn into_registry_data(self) -> (r: RegistryData)
        ensures
            r.ty == self.actual,
            r.data == self.data,
    {
        RegistryData::from_data(self.actual, self.data)
    }
}

/// A registry value: its type and its raw bytes.
#[derive(Debug)]
pub struct RegistryData {
    pub data: Vec<u8>,
    pub ty: u32,
}

impl RegistryData {
    /// A value of type `ty` holding `data`.
    pub fn from_data(ty: u32, data: Vec<u8>) -> (r: RegistryData)
        ensures
            r.ty == ty,
            r.data == data,
    {
        RegistryData { data, ty }
    }

    /// The string of a `REG_SZ` or `REG_EXPAND_SZ` value, up to its first NUL.
    /// The environment references of a `REG_EXPAND_SZ` value (`%SystemRoot%`)
    /// are left in place: expanding them reads the process environment, which
    /// is the caller's to do.
    pub fn try_into_expanded_os_string(self) -> (r: Result<String, UnexpectedRegistryData>)
        ensures
            match r {
                Ok(s) => is_string_type(self.ty) && s@ == reg_string(self.data@),
                Err(e) => !is_string_type(self.ty) && e.expect == REG_EXPAND_SZ && e.actual == self.ty
                    && e.data == self.data,
            },
    {
        if self.ty == REG_SZ || self.ty == REG_EXPAND_SZ {
            Ok(from_wide_bytes(self.data.as_slice()))
        } else {
            Err(UnexpectedRegistryData { expect: REG_EXPAND_SZ, actual: self.ty, data: self.data })
        }
    }

    /// The string of a `REG_SZ` or `REG_EXPAND_SZ` value, up to its first NUL.
    pub fn try_into_os_string(self) -> (r: Result<String, UnexpectedRegistryData>)
        ensures
            match r {
                Ok(s) => is_string_type(self.ty) && s@ == reg_string(self.data@),
                Err(e) => !is_string_type(self.ty) && e.expect == REG_SZ && e.actual == self.ty
                    && e.data == self.data,
            },
    {
        if self.ty == REG_SZ || self.ty == REG_EXPAND_SZ {
            Ok(from_wide_bytes(self.data.as_slice()))
        } else {
            Err(UnexpectedRegistryData { expect: REG_SZ, actual: self.ty, data: self.data })
        }
    }

    /// The number of a four-byte `REG_DWORD` (little-endian) or
    /// `REG_DWORD_BIG_ENDIAN` value.
    pub fn try_into_u32(self) -> (r: Result<u32, UnexpectedRegistryData>)
        ensures
            match r {
                Ok(v) => self.data@.len() == 4 && (
                    (self.ty == REG_DWORD && v == le_value(self.data@))
                    || (self.ty == REG_DWORD_BIG_ENDIAN && v == be_value(self.data@))),
                Err(e) => !(self.data@.len() == 4 && (self.ty == REG_DWORD || self.ty == REG_DWORD_BIG_ENDIAN))
                    && e.expect == REG_DWORD && e.actual == self.ty && e.data == self.data,
            },
    {
        if self.data.len() == 4 && (self.ty == REG_DWORD || self.ty == REG_DWORD_BIG_ENDIAN) {
            let v = if self.ty == REG_DWORD {
                le_u64(self.data.as_slice())
            } else {
                be_u64(self.data.as_slice())
            };
            proof {
                lemma_u32_bound(self.data@);
            }
            Ok(v as u32)
        } else {
            Err(UnexpectedRegistryData { expect: REG_DWORD, actual: self.ty, data: self.data })
        }
    }

    /// The number of an eight-byte `REG_QWORD` or `REG_DWORD` (little-endian)
    /// or `REG_DWORD_BIG_ENDIAN` value.
    pub fn try_into_u64(self) -> (r: Result<u64, UnexpectedRegistryData>)
        ensures
            match r {
                Ok(v) => self.data@.len() == 8 && (
                    ((self.ty == REG_QWORD || self.ty == REG_DWORD) && v == le_value(self.data@))
                    || (self.ty == REG_DWORD_BIG_ENDIAN && v == be_value(self.data@))),
                Err(e) => !(self.data@.len() == 8 && (self.ty == REG_QWORD || self.ty == REG_DWORD
                    || self.ty == REG_DWORD_BIG_ENDIAN))
                    && e.expect == REG_QWORD && e.actual == self.ty && e.data == self.data,
            },
    {
        if self.data.len() == 8 && (self.ty == REG_QWORD || self.ty == REG_DWORD) {
            Ok(le_u64(self.data.as_slice()))
        } else if self.data.len() == 8 && self.ty == REG_DWORD_BIG_ENDIAN {
            Ok(be_u64(self.data.as_slice()))
        } else {
            Err(UnexpectedRegistryData { expect: REG_QWORD, actual: self.ty, data: self.data })
        }
    }
}

proof fn lemma_u32_bound(b: Seq<u8>)
    requires
        b.len() == 4,
    ensures
        le_value(b) < 0x100000000,
        be_value(b) < 0x100000000,
{
    lemma_le_bound(b);
    lemma_be_bound(b);
    reveal_with_fuel(pow256, 5);
}

proof fn lemma_le_bound(b: Seq<u8>)
    ensures
        le_value(b) < pow256(b.len()),
    decreases b.len(),
{
    if b.len() > 0 {
        lemma_le_bound(b.drop_first());
        let p = pow256(b.drop_first().len());
        let v = le_value(b.drop_first());
        let x = b[0];
        assert(x + 256 * v < 256 * p) by (nonlinear_arith)
            requires
                v < p,
                x < 256,
        ;
    }
}

proof fn lemma_be_bound(b: Seq<u8>)
    ensures
        be_value(b) < pow256(b.len()),
    decreases b.len(),
{
    if b.len() > 0 {
        lemma_be_bound(b.drop_last());
        let p = pow256(b.drop_last().len());
        let v = be_value(b.drop_last());
        let x = b.last();
        assert(v * 256 + x < 256 * p) by (nonlinear_arith)
            requires
                v < p,
                x < 256,
        ;
    }
}

/// An error code reported by the operating system.
#[derive(Clone, Copy, Debug, PartialEq, Eq, Structural)]
pub struct OsError {
    pub code: i32,
}

/// A registry value whose type is not the one that was asked for.
#[derive(Debug)]
pub struct UnexpectedRegistryData {
    pub expect: u32,
    pub actual: u32,
    pub data: Vec<u8>,
}

/// Why the registry could not say which ports are connected.
#[derive(Debug)]
pub enum RegistryError {
    UnexpectedRegistryData(UnexpectedRegistryData),
    Io(OsError),
    UnableToParseRegistryData(String),
    ComPortMissingFromRegistry(String),
}

/// The vendor and product ids of a USB serial device.
#[derive(Clone, Debug)]
pub struct PortMeta {
    pub vendor: String,
    pub product: String,
}

impl View for PortMeta {
    type V = (Seq<char>, Seq<char>);

    open spec fn view(&self) -> (Seq<char>, Seq<char>) {
        (self.vendor@, self.product@)
    }
}

impl PartialEq for PortMeta {
    fn eq(&self, o: &PortMeta) -> (r: bool)
        ensures
            r == (self@ == o@),
    {
        self.vendor == o.vendor && self.product == o.product
    }
}

/// Relies on `str::to_lowercase`: the lower-case form of the string, which
/// depends on its characters alone.
#[verifier::external_body]
fn lowercase(s: &str) -> (r: String)
    ensures
        r@ == lower_of(s@),
{
    s.to_lowercase()
}

/// Relies on `regex::Regex::new`, to compile `pattern`, and on
/// `regex::Regex::find_iter` with `Match::as_str`, for the text of each match.
/// `None` when the pattern does not compile, which `ID_PATTERN` does: it is
/// valid and far below the size limit.
#[verifier::external_body]
fn find_all(pattern: &str, text: &str) -> (r: Option<Vec<String>>)
    ensures
        r is Some ==> r->Some_0@.map_values(|t: String| t@) == regex_find_all(pattern@, text@),
        pattern@ == ID_PATTERN@ ==> r is Some,
{
    let re = regex::Regex::new(pattern).ok()?;
    Some(re.find_iter(text).map(|m| m.as_str().to_string()).collect())
}

impl PortMeta {
    /// Metadata from a vendor and a product id, both lower-cased.
    pub fn from_ids(vid: &str, pid: &str) -> (r: PortMeta)
        ensures
            r.vendor@ == lower_of(vid@),
            r.product@ == lower_of(pid@),
    {
        PortMeta { vendor: lowercase(vid), product: lowercase(pid) }
    }

    /// The vendor id.
    pub fn vid(&self) -> (r: String)
        ensures
            r@ == self.vendor@,
    {
        self.vendor.clone()
    }

    /// The product id.
    pub fn pid(&self) -> (r: String)
        ensures
            r@ == self.product@,
    {
        self.product.clone()
    }

    /// Whether the ids, lower-cased, are `vid` and `pid`.
    pub fn matches(&self, vid: &str, pid: &str) -> (r: bool)
        ensures
            r == (vid@ == lower_of(self.vendor@) && pid@ == lower_of(self.product@)),
    {
        let vendor = lowercase(self.vendor.as_str());
        let product = lowercase(self.product.as_str());
        vid.to_owned() == vendor && pid.to_owned() == product
    }

    /// The metadata that the tokens of a device path give: the vendor is the id
    /// of the last token but one, the product the id of the last token, both
    /// lower-cased.
    pub fn from_tokens(tokens: Vec<String>) -> (r: Option<PortMeta>)
        ensures
            match r {
                Some(m) => tokens@.len() >= 2
                    && m@ == meta_of_tokens(tokens@.map_values(|t: String| t@)),
                None => tokens@.len() < 2,
            },
    {
        let mut tokens = tokens;
        let ghost all = tokens@.map_values(|t: String| t@);
        if tokens.len() < 2 {
            return None;
        }
        let product_token = tokens.pop().unwrap();
        let vendor_token = tokens.pop().unwrap();
        let product = lowercase(id_from_token(&product_token).as_str());
        let vendor = lowercase(id_from_token(&vendor_token).as_str());
        assert(all[all.len() - 1] == product_token@);
        assert(all[all.len() - 2] == vendor_token@);
        Some(PortMeta { vendor, product })
    }

    /// Reads the vendor and product ids, lower-cased, out of a device path such
    /// as `\\?\usb#vid_2fe3&pid_0100&mi_00#...`; the tokens may be in either case.
    pub fn parse_registry(s: &str) -> (r: Option<PortMeta>)
        ensures
            id_tokens(s@).len() < 2 <==> r is None,
            r is Some ==> id_tokens(s@).len() >= 2 && r->Some_0@ == meta_of_tokens(id_tokens(s@)),
    {
        match find_all(ID_PATTERN, s) {
            Some(tokens) => PortMeta::from_tokens(tokens),
            None => None,
        }
    }
}

/// The id that a token carries: what follows its first four characters.
fn id_from_token(token: &String) -> (r: String)
    ensures
        r@ == id_of(token@),
{
    let n = token.as_str().unicode_len();
    if n >= 4 {
        token.as_str().substring_char(4, n).to_owned()
    } else {
        String::new()
    }
}

impl vstd::std_specs::cmp::PartialEqSpecImpl for PortMeta {
    open spec fn obeys_eq_spec() -> bool {
        true
    }

    open spec fn eq_spec(&self, o: &PortMeta) -> bool {
        self@ == o@
    }
}

/// The names of a list of ports.
pub open spec fn name_set(names: Seq<String>) -> Set<Seq<char>> {
    Set::new(|n: Seq<char>| exists|i: int| 0 <= i < names.len() && names[i]@ == n)
}

fn contains_name(names: &Vec<String>, name: &String) -> (r: bool)
    ensures
        r == name_set(names@).contains(name@),
{
    let mut i: usize = 0;
    while i < names.len()
        invariant
            0 <= i <= names@.len(),
            forall|j: int| 0 <= j < i ==> names@[j]@ != name@,
        decreases names@.len() - i,
    {
        if names[i] == *name {
            return true;
        }
        i = i + 1;
    }
    false
}

/// Keeps the devices whose port is connected; a later entry of a port wins.
pub fn select_connected(connected: &Vec<String>, devices: Vec<(String, PortMeta)>) -> (r: Vec<(String, PortMeta)>)
    ensures
        keys_unique(r@),
        cache_map(r@) == cache_map(devices@).restrict(name_set(connected@)),
{
    let ghost all = devices@;
    let ghost names = name_set(connected@);
    let mut rest = devices;
    let mut r: Vec<(String, PortMeta)> = Vec::new();
    let ghost mut k: int = 0;
    while rest.len() > 0
        invariant
            0 <= k,
            k + rest@.len() == all.len(),
            rest@ == all.subrange(k, all.len() as int),
            keys_unique(r@),
            cache_map(r@) == cache_map(all.take(k)).restrict(names),
            names == name_set(connected@),
        decreases rest@.len(),
    {
        let (port, meta) = rest.remove(0);
        assert(all[k] == (port, meta));
        assert(all.take(k + 1).drop_last() =~= all.take(k));
        let ghost prefix = cache_map(all.take(k));
        assert(all.take(k + 1).last() == all[k]);
        assert(cache_map(all.take(k + 1)) == prefix.insert(port@, meta));
        let ghost key = port@;
        let ghost value = meta;
        if contains_name(connected, &port) {
            upsert(&mut r, port, meta);
            assert(cache_map(r@) =~= prefix.insert(key, value).restrict(names));
        } else {
            assert(!names.contains(key));
            assert(cache_map(r@) =~= prefix.insert(key, value).restrict(names));
        }
        proof {
            k = k + 1;
        }
        assert(rest@ =~= all.subrange(k, all.len() as int));
    }
    assert(all.take(k) =~= all);
    r
}

proof fn lemma_meta_map(metas: Seq<(String, PortMeta)>, devices: Seq<(String, RegistryData)>)
    requires
        metas.len() == devices.len(),
        forall|j: int| 0 <= j < metas.len() ==> metas[j].0@ == devices[j].0@
            && metas[j].1@ == meta_of_tokens(id_tokens(reg_string(devices[j].1.data@))),
    ensures
        meta_map(metas) == device_map(devices),
    decreases metas.len(),
{
    if metas.len() > 0 {
        let m = metas.drop_last();
        let d = devices.drop_last();
        assert forall|j: int| 0 <= j < m.len() implies m[j].0@ == d[j].0@
            && m[j].1@ == meta_of_tokens(id_tokens(reg_string(d[j].1.data@))) by {
            assert(m[j] == metas[j] && d[j] == devices[j]);
        }
        lemma_meta_map(m, d);
        assert(metas.last() == metas[metas.len() - 1]);
        assert(devices.last() == devices[devices.len() - 1]);
        assert(meta_map(metas) =~= device_map(devices));
    }
}

/// The connected USB serial ports with their ids, from two registry keys:
/// `connected` holds the values of `HARDWARE\DEVICEMAP\SERIALCOMM` (one port
/// name each), `devices` the `(port, device path)` values of
/// `SYSTEM\CurrentControlSet\Control\COM Name Arbiter\Devices`.
pub fn scan(connected: Vec<RegistryData>, devices: Vec<(String, RegistryData)>) -> (r: Result<Vec<(String, PortMeta)>, RegistryError>)
    ensures
        match r {
            Ok(v) => {
                &&& forall|i: int| 0 <= i < connected@.len() ==> is_string_type(#[trigger] connected@[i].ty)
                &&& forall|j: int| 0 <= j < devices@.len() ==> is_string_type(#[trigger] devices@[j].1.ty)
                    && id_tokens(reg_string(devices@[j].1.data@)).len() >= 2
                &&& keys_unique(v@)
                &&& meta_map(v@) == device_map(devices@).restrict(connected_names(connected@))
            },
            Err(RegistryError::UnexpectedRegistryData(e)) => {
                ||| exists|i: int| 0 <= i < connected@.len() && !is_string_type(#[trigger] connected@[i].ty)
                    && e.actual == connected@[i].ty && e.data == connected@[i].data
                ||| exists|j: int| 0 <= j < devices@.len() && !is_string_type(#[trigger] devices@[j].1.ty)
                    && e.actual == devices@[j].1.ty && e.data == devices@[j].1.data
            },
            Err(RegistryError::UnableToParseRegistryData(s)) => exists|j: int| 0 <= j < devices@.len()
                && is_string_type(#[trigger] devices@[j].1.ty) && s@ == reg_string(devices@[j].1.data@)
                && id_tokens(reg_string(devices@[j].1.data@)).len() < 2,
            Err(_) => false,
        },
        (exists|i: int| 0 <= i < connected@.len() && !is_string_type(#[trigger] connected@[i].ty))
            ==> r matches Err(RegistryError::UnexpectedRegistryData(_)),
        (forall|i: int| 0 <= i < connected@.len() ==> is_string_type(#[trigger] connected@[i].ty))
            && (forall|j: int| 0 <= j < devices@.len() ==> is_string_type(#[trigger] devices@[j].1.ty)
                && id_tokens(reg_string(devices@[j].1.data@)).len() >= 2)
            ==> r is Ok,
{
    let ghost cs = connected@;
    let ghost ds = devices@;
    let mut rest = connected;
    let mut names: Vec<String> = Vec::new();
    while rest.len() > 0
        invariant
            names@.len() + rest@.len() == cs.len(),
            rest@ == cs.subrange(names@.len() as int, cs.len() as int),
            forall|i: int| 0 <= i < names@.len() ==> is_string_type(#[trigger] cs[i].ty),
            forall|i: int| 0 <= i < names@.len() ==> (#[trigger] names@[i])@ == reg_string(cs[i].data@),
            cs == connected@,
        decreases rest@.len(),
    {
        let ghost k = names@.len() as int;
        let value = rest.remove(0);
        assert(cs[k] == value);
        match value.try_into_os_string() {
            Ok(name) => names.push(name),
            Err(e) => {
                assert(!is_string_type(cs[k].ty) && e.actual == cs[k].ty && e.data == cs[k].data);
                return Err(RegistryError::UnexpectedRegistryData(e));
            },
        }
        assert(rest@ =~= cs.subrange(names@.len() as int, cs.len() as int));
    }
    assert(name_set(names@) =~= connected_names(cs)) by {
        assert forall|n: Seq<char>| connected_names(cs).contains(n) implies name_set(names@).contains(n) by {
            let i = choose|i: int| 0 <= i < cs.len() && reg_string(cs[i].data@) == n;
            assert(names@[i]@ == n);
        }
        assert forall|n: Seq<char>| name_set(names@).contains(n) implies connected_names(cs).contains(n) by {
            let i = choose|i: int| 0 <= i < names@.len() && names@[i]@ == n;
            assert(reg_string(cs[i].data@) == n);
        }
    }
    let mut rest = devices;
    let mut metas: Vec<(String, PortMeta)> = Vec::new();
    while rest.len() > 0
        invariant
            metas@.len() + rest@.len() == ds.len(),
            rest@ == ds.subrange(metas@.len() as int, ds.len() as int),
            forall|i: int| 0 <= i < cs.len() ==> is_string_type(#[trigger] cs[i].ty),
            cs == connected@,
            ds == devices@,
            forall|j: int| 0 <= j < metas@.len() ==> is_string_type(#[trigger] ds[j].1.ty)
                && id_tokens(reg_string(ds[j].1.data@)).len() >= 2,
            forall|j: int| 0 <= j < metas@.len() ==> (#[trigger] metas@[j]).0@ == ds[j].0@
                && metas@[j].1@ == meta_of_tokens(id_tokens(reg_string(ds[j].1.data@))),
        decreases rest@.len(),
    {
        let ghost k = metas@.len() as int;
        let (port, data) = rest.remove(0);
        assert(ds[k] == (port, data));
        match data.try_into_os_string() {
            Ok(path) => match PortMeta::parse_registry(path.as_str()) {
                Some(meta) => metas.push((port, meta)),
                None => {
                    assert(is_string_type(ds[k].1.ty) && path@ == reg_string(ds[k].1.data@)
                        && id_tokens(reg_string(ds[k].1.data@)).len() < 2);
                    return Err(RegistryError::UnableToParseRegistryData(path));
                },
            },
            Err(e) => {
                assert(!is_string_type(ds[k].1.ty) && e.actual == ds[k].1.ty && e.data == ds[k].1.data);
                return Err(RegistryError::UnexpectedRegistryData(e));
            },
        }
        assert(rest@ =~= ds.subrange(metas@.len() as int, ds.len() as int));
    }
    proof {
        lemma_meta_map(metas@, ds);
    }
    let v = select_connected(&names, metas);
    assert(meta_map(v@) =~= device_map(ds).restrict(connected_names(cs)));
    Ok(v)
}

/// The ids of one port in a snapshot, or `ComPortMissingFromRegistry`.
pub fn scan_for(port: &String, snapshot: &Vec<(String, PortMeta)>) -> (r: Result<PortMeta, RegistryError>)
    requires
        keys_unique(snapshot@),
    ensures
        match r {
            Ok(m) => cache_map(snapshot@).contains_key(port@) && m@ == cache_map(snapshot@)[port@]@,
            Err(RegistryError::ComPortMissingFromRegistry(p)) => !cache_map(snapshot@).contains_key(port@)
                && p@ == port@,
            Err(_) => false,
        },
{
    match position(snapshot, port) {
        Some(i) => Ok(PortMeta { vendor: snapshot[i].1.vid(), product: snapshot[i].1.pid() }),
        None => Err(RegistryError::ComPortMissingFromRegistry(port.clone())),
    }
}

} // verus!
