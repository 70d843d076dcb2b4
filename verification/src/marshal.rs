//! The dynamically typed values of the hosted runtime's calling convention,
//! and the conversions between them and native values.

use vstd::prelude::*;
use vstd::slice::slice_to_vec;
use crate::status::{HostError, MarshalFault};
use crate::utf16::{decode, decode_utf16, encode, encode_utf16, lemma_decode_encode};

verus! {

/// The element type that an array declares.
#[derive(Clone, Copy, Debug, PartialEq, Eq, Structural)]
pub enum ElementTag {
    Byte,
    WideString,
    Variant,
    NativeHandle,
}

/// The elements of an array, by element type.
#[derive(Debug, PartialEq, Eq)]
pub enum ArrayData {
    Bytes(Vec<u8>),
    Strings(Vec<Vec<u16>>),
    Variants(Vec<MarshaledValue>),
    Handles(Vec<usize>),
}

/// A one-dimensional array with a declared lower bound.
#[derive(Debug, PartialEq, Eq)]
pub struct MarshaledArray {
    pub lower: i32,
    pub data: ArrayData,
}

/// A value as the hosted runtime passes and returns it.
#[derive(Debug, PartialEq, Eq)]
pub enum MarshaledValue {
    /// No value: what a static entry point takes as its instance.
    Empty,
    WideString(Vec<u16>),
    Array(MarshaledArray),
    NativeHandle(usize),
}

/// The largest number of elements of an array whose lower bound is zero.
pub const MAX_ELEMENTS: usize = 0x8000_0000;

/// The element count that the bounds `[lower, upper]` declare.
pub open spec fn spec_bounds_length(lower: int, upper: int) -> int {
    if upper < lower {
        0
    } else {
        upper - lower + 1
    }
}

impl ArrayData {
    /// The number of elements.
    pub open spec fn spec_len(&self) -> nat {
        match self {
            ArrayData::Bytes(v) => v@.len(),
            ArrayData::Strings(v) => v@.len(),
            ArrayData::Variants(v) => v@.len(),
            ArrayData::Handles(v) => v@.len(),
        }
    }

    /// The element type.
    pub open spec fn spec_tag(&self) -> ElementTag {
        match self {
            ArrayData::Bytes(_) => ElementTag::Byte,
            ArrayData::Strings(_) => ElementTag::WideString,
            ArrayData::Variants(_) => ElementTag::Variant,
            ArrayData::Handles(_) => ElementTag::NativeHandle,
        }
    }
}

impl MarshaledArray {
    /// The number of elements.
    pub open spec fn spec_len(&self) -> nat {
        self.data.spec_len()
    }

    /// The declared upper bound: one below the lower bound for an empty array.
    pub open spec fn spec_upper(&self) -> int {
        self.lower + self.spec_len() - 1
    }

    /// The bounds are representable: the upper bound is a 32-bit number, and
    /// so is the element count.
    pub open spec fn wf(&self) -> bool {
        &&& i32::MIN <= self.spec_upper() <= i32::MAX
        &&& self.spec_len() <= u32::MAX
    }

    /// The element type that the array declares.
    pub fn tag(&self) -> (t: ElementTag)
        ensures
            t == self.data.spec_tag(),
    {
        match &self.data {
            ArrayData::Bytes(_) => ElementTag::Byte,
            ArrayData::Strings(_) => ElementTag::WideString,
            ArrayData::Variants(_) => ElementTag::Variant,
            ArrayData::Handles(_) => ElementTag::NativeHandle,
        }
    }

    /// The number of elements that the array holds.
    pub fn len(&self) -> (n: usize)
        ensures
            n == self.spec_len(),
    {
        match &self.data {
            ArrayData::Bytes(v) => v.len(),
            ArrayData::Strings(v) => v.len(),
            ArrayData::Variants(v) => v.len(),
            ArrayData::Handles(v) => v.len(),
        }
    }

    /// Whether the bounds are representable.
    pub fn is_wf(&self) -> (b: bool)
        ensures
            b == self.wf(),
    {
        let n: usize = self.len();
        if n > 0xFFFF_FFFF {
            return false;
        }
        let upper: i64 = self.lower as i64 + n as i64 - 1;
        -0x8000_0000 <= upper && upper <= 0x7FFF_FFFF
    }

    /// The declared lower bound.
    pub fn lower_bound(&self) -> (b: i32)
        ensures
            b == self.lower,
    {
        self.lower
    }

    /// The declared upper bound.
    pub fn upper_bound(&self) -> (b: i32)
        requires
            self.wf(),
        ensures
            b == self.spec_upper(),
    {
        let n: i64 = self.len() as i64;
        (self.lower as i64 + n - 1) as i32
    }
}

/// The element count that the bounds `[lower, upper]` declare: zero when the
/// upper bound lies below the lower one, else `upper - lower + 1`.
pub fn bounds_length(lower: i32, upper: i32) -> (n: u64)
    ensures
        n == spec_bounds_length(lower as int, upper as int),
{
    if upper < lower {
        0
    } else {
        (upper as i64 - lower as i64 + 1) as u64
    }
}

/// The bound that a query for it reported: zero where the query failed.
pub fn reported_bound(reply: Option<i32>) -> (bound: i32)
    ensures
        reply matches Some(b) ==> bound == b,
        reply is None ==> bound == 0,
{
    match reply {
        Some(b) => b,
        None => 0,
    }
}

/// The element count that two queries for the bounds declare, where a query
/// that failed counts as the bound zero.
pub fn reported_length(lower: Option<i32>, upper: Option<i32>) -> (n: u64)
    ensures
        n == spec_bounds_length(
            (if lower is Some { lower->0 } else { 0 }) as int,
            (if upper is Some { upper->0 } else { 0 }) as int,
        ),
{
    bounds_length(reported_bound(lower), reported_bound(upper))
}

/// The element count of `array`, which is left as it is. For an array with
/// representable bounds the count is read from its declared bounds: zero
/// when the upper bound lies below the lower one, else `upper - lower + 1`.
/// It is the number of elements that the array holds in either case.
pub fn get_array_length(array: &MarshaledArray) -> (n: usize)
    ensures
        n == array.spec_len(),
        array.wf() ==> n == spec_bounds_length(array.lower as int, array.spec_upper()),
        array.wf() && array.spec_upper() < array.lower ==> n == 0,
        array.wf() && array.spec_upper() >= array.lower ==> n == array.spec_upper() - array.lower
            + 1,
{
    if array.is_wf() {
        reported_length(Some(array.lower_bound()), Some(array.upper_bound())) as usize
    } else {
        array.len()
    }
}

/// The element count of a well-formed array is the one that its bounds
/// declare, and it is never negative.
pub proof fn lemma_length_from_bounds(array: MarshaledArray)
    requires
        array.wf(),
    ensures
        array.spec_len() == spec_bounds_length(array.lower as int, array.spec_upper()),
        array.spec_len() == 0 <==> array.spec_upper() < array.lower,
{
}

/// Holds the handle of an array that was just created against null: an array
/// that could not be created is a marshaling failure.
pub fn check_array_handle(handle: usize) -> (r: Result<(), HostError>)
    ensures
        handle != 0 ==> r == Ok::<(), HostError>(()),
        handle == 0 ==> r == Err::<(), HostError>(
            HostError::MarshalFailure(MarshalFault::NullHandle),
        ),
{
    if handle == 0 {
        Err(HostError::MarshalFailure(MarshalFault::NullHandle))
    } else {
        Ok(())
    }
}

/// Holds the status of storing the element at `index` against success: a
/// failed store is a marshaling failure that names the index.
pub fn check_element_store(index: usize, status: i32) -> (r: Result<(), HostError>)
    ensures
        status == 0 ==> r == Ok::<(), HostError>(()),
        status != 0 ==> r == Err::<(), HostError>(
            HostError::MarshalFailure(MarshalFault::ElementStore { index }),
        ),
{
    if status == 0 {
        Ok(())
    } else {
        Err(HostError::MarshalFailure(MarshalFault::ElementStore { index }))
    }
}

/// The bytes that `array` holds, if it is an array of bytes.
pub open spec fn spec_bytes(array: MarshaledArray) -> Option<Seq<u8>> {
    match array.data {
        ArrayData::Bytes(v) => Some(v@),
        _ => None,
    }
}

/// Whether `array` is the array of bytes for `contents`: lower bound zero and
/// the same bytes in the same order.
pub open spec fn is_byte_array(array: MarshaledArray, contents: Seq<u8>) -> bool {
    &&& array.lower == 0
    &&& array.data matches ArrayData::Bytes(v) && v@ == contents
}

/// Marshals a byte buffer into an array of bytes with lower bound zero.
/// `handle` is what the creation of the array handed back: where it is null
/// the array could not be allocated. Nor can an array be had for a buffer of
/// more than `MAX_ELEMENTS` bytes, whose bounds no array can declare. An
/// empty buffer is no error.
pub fn create_assembly_safearray(assembly_contents: &Vec<u8>, handle: usize) -> (r: Result<
    MarshaledArray,
    HostError,
>)
    ensures
        handle == 0 || assembly_contents@.len() > MAX_ELEMENTS ==> r == Err::<
            MarshaledArray,
            HostError,
        >(HostError::AllocationError),
        handle != 0 && assembly_contents@.len() <= MAX_ELEMENTS ==> (r matches Ok(array)
            && array.wf() && is_byte_array(array, assembly_contents@)),
{
    if handle == 0 || assembly_contents.len() > MAX_ELEMENTS {
        return Err(HostError::AllocationError);
    }
    let bytes = slice_to_vec(assembly_contents.as_slice());
    Ok(MarshaledArray { lower: 0, data: ArrayData::Bytes(bytes) })
}

/// Reads the bytes of an array of bytes back; `None` for any other array.
pub fn read_bytes(array: &MarshaledArray) -> (r: Option<Vec<u8>>)
    ensures
        r is Some <==> spec_bytes(*array) is Some,
        r matches Some(bytes) ==> Some(bytes@) == spec_bytes(*array),
{
    match &array.data {
        ArrayData::Bytes(v) => Some(slice_to_vec(v.as_slice())),
        _ => None,
    }
}

/// The characters of each string of a list.
pub open spec fn spec_texts(list: Seq<String>) -> Seq<Seq<char>> {
    list.map_values(|s: String| s@)
}

/// The code units of each wide string of a list.
pub open spec fn spec_units(items: Seq<Vec<u16>>) -> Seq<Seq<u16>> {
    items.map_values(|v: Vec<u16>| v@)
}

/// The wide strings of an argument array: an array with one element, a
/// variant that refers to an array of wide strings. `None` for any other shape.
pub open spec fn spec_wrapped_units(array: MarshaledArray) -> Option<Seq<Seq<u16>>> {
    match array.data {
        ArrayData::Variants(outer) => {
            if outer@.len() == 1 {
                match outer@[0] {
                    MarshaledValue::Array(inner) => match inner.data {
                        ArrayData::Strings(items) => Some(spec_units(items@)),
                        _ => None,
                    },
                    _ => None,
                }
            } else {
                None
            }
        },
        _ => None,
    }
}

/// The strings that an argument array stands for.
pub open spec fn spec_wrapped_texts(array: MarshaledArray) -> Option<Seq<Seq<char>>> {
    match spec_wrapped_units(array) {
        Some(units) => Some(units.map_values(|u: Seq<u16>| decode(u))),
        None => None,
    }
}

/// Whether `array` is the argument array for the strings `texts`: lower bounds
/// zero, one variant, and in it the wide-string form of each text, in order.
pub open spec fn is_final_array(array: MarshaledArray, texts: Seq<Seq<char>>) -> bool {
    &&& array.lower == 0
    &&& spec_wrapped_units(array) == Some(texts.map_values(|t: Seq<char>| encode(t)))
    &&& array.data matches ArrayData::Variants(outer) && outer@[0] matches MarshaledValue::Array(
        inner,
    ) && inner.lower == 0 && inner.wf()
}

/// Converts each string of a list to its wide-string form.
fn encode_all(arguments: &Vec<String>) -> (items: Vec<Vec<u16>>)
    ensures
        spec_units(items@) == spec_texts(arguments@).map_values(|t: Seq<char>| encode(t)),
{
    let mut items: Vec<Vec<u16>> = Vec::new();
    let mut i: usize = 0;
    while i < arguments.len()
        invariant
            0 <= i <= arguments.len(),
            items@.len() == i,
            forall|j: int| 0 <= j < i ==> (#[trigger] items@[j])@ == encode(arguments@[j]@),
        decreases arguments.len() - i,
    {
        let units = encode_utf16(arguments[i].as_str());
        items.push(units);
        i = i + 1;
    }
    assert(spec_units(items@) =~= spec_texts(arguments@).map_values(|t: Seq<char>| encode(t)));
    items
}

/// Whether the store of the element at `k` failed. A store whose status is
/// missing was not performed, which is a failure too.
pub open spec fn spec_store_failed(stores: Seq<i32>, k: int) -> bool {
    k >= stores.len() || stores[k] != 0
}

/// Whether `k` is the first of `count` elements whose store failed.
pub open spec fn spec_first_failed_store(stores: Seq<i32>, count: int, k: int) -> bool {
    &&& 0 <= k < count
    &&& spec_store_failed(stores, k)
    &&& forall|j: int| 0 <= j < k ==> !#[trigger] spec_store_failed(stores, j)
}

/// Whether each of `count` elements was stored.
pub open spec fn spec_all_stored(stores: Seq<i32>, count: int) -> bool {
    forall|j: int| 0 <= j < count ==> !#[trigger] spec_store_failed(stores, j)
}

/// Whether the array of `count` wide strings could not be created: its
/// handle is null, or no array can declare bounds for so many elements.
pub open spec fn spec_inner_fails(count: int, inner_handle: usize) -> bool {
    inner_handle == 0 || count > MAX_ELEMENTS
}

/// Holds the statuses of the stores of `count` elements against success, in
/// the order of the elements: the first store that failed ends the marshaling
/// with a failure that names its index.
pub fn check_stores(count: usize, stores: &Vec<i32>) -> (r: Result<(), HostError>)
    ensures
        forall|k: int| #[trigger]
            spec_first_failed_store(stores@, count as int, k) ==> r == Err::<(), HostError>(
                HostError::MarshalFailure(MarshalFault::ElementStore { index: k as usize }),
            ),
        spec_all_stored(stores@, count as int) ==> r == Ok::<(), HostError>(()),
{
    let mut i: usize = 0;
    while i < count
        invariant
            0 <= i <= count,
            forall|j: int| 0 <= j < i ==> !#[trigger] spec_store_failed(stores@, j),
        decreases count - i,
    {
        let status: i32 = if i < stores.len() {
            stores[i]
        } else {
            -1
        };
        match check_element_store(i, status) {
            Ok(()) => {},
            Err(e) => {
                assert(spec_store_failed(stores@, i as int));
                assert forall|k: int| #[trigger]
                    spec_first_failed_store(stores@, count as int, k) implies k == i by {
                    if k < i {
                        assert(!spec_store_failed(stores@, k));
                    } else if k > i {
                        assert(!spec_store_failed(stores@, i as int));
                    }
                }
                return Err(e);
            },
        }
        assert(!spec_store_failed(stores@, i as int));
        i = i + 1;
    }
    assert forall|k: int| #[trigger]
        spec_first_failed_store(stores@, count as int, k) implies false by {
        assert(!spec_store_failed(stores@, k));
    }
    Ok(())
}

/// What `create_final_array` returns for the outcomes of the native steps,
/// which are taken in their order: the creation of the array of wide strings,
/// the store of each string, the creation of the outer array, the store of
/// the variant into it. The first step that failed decides the failure.
pub open spec fn spec_final_array_result(
    texts: Seq<Seq<char>>,
    inner_handle: usize,
    stores: Seq<i32>,
    outer_handle: usize,
    outer_store: i32,
    r: Result<MarshaledArray, HostError>,
) -> bool {
    let count = texts.len() as int;
    let null = Err::<MarshaledArray, HostError>(
        HostError::MarshalFailure(MarshalFault::NullHandle),
    );
    if spec_inner_fails(count, inner_handle) {
        r == null
    } else if !spec_all_stored(stores, count) {
        forall|k: int| #[trigger]
            spec_first_failed_store(stores, count, k) ==> r == Err::<MarshaledArray, HostError>(
                HostError::MarshalFailure(MarshalFault::ElementStore { index: k as usize }),
            )
    } else if outer_handle == 0 {
        r == null
    } else if outer_store != 0 {
        r == Err::<MarshaledArray, HostError>(
            HostError::MarshalFailure(MarshalFault::ElementStore { index: 0 }),
        )
    } else {
        r matches Ok(array) && array.wf() && is_final_array(array, texts)
    }
}

/// Where not every element was stored, one of them is the first that failed.
pub proof fn lemma_first_failed_store_exists(stores: Seq<i32>, count: int)
    requires
        !spec_all_stored(stores, count),
    ensures
        exists|k: int| #[trigger] spec_first_failed_store(stores, count, k),
    decreases count,
{
    let bad = choose|j: int| 0 <= j < count && #[trigger] spec_store_failed(stores, j);
    if spec_all_stored(stores, bad) {
        assert(spec_first_failed_store(stores, count, bad));
    } else {
        lemma_first_failed_store_exists(stores, bad);
        let k = choose|k: int| #[trigger] spec_first_failed_store(stores, bad, k);
        assert(spec_first_failed_store(stores, count, k));
    }
}

/// Marshals a list of strings into the argument array of an entry point that
/// takes one array of strings: an array of one variant, which refers to the
/// array of the wide strings. `inner_handle` and `outer_handle` are what the
/// creations of the two arrays handed back, `stores` holds the status of the
/// store of each string, in order, and `outer_store` that of the store of the
/// variant. The first step that failed ends the marshaling; a failed store
/// names its index.
pub fn create_final_array(
    arguments: Vec<String>,
    inner_handle: usize,
    stores: &Vec<i32>,
    outer_handle: usize,
    outer_store: i32,
) -> (r: Result<MarshaledArray, HostError>)
    ensures
        spec_final_array_result(
            spec_texts(arguments@),
            inner_handle,
            stores@,
            outer_handle,
            outer_store,
            r,
        ),
        r is Ok <==> !spec_inner_fails(arguments@.len() as int, inner_handle) && spec_all_stored(
            stores@,
            arguments@.len() as int,
        ) && outer_handle != 0 && outer_store == 0,
{
    if arguments.len() > MAX_ELEMENTS {
        return Err(HostError::MarshalFailure(MarshalFault::NullHandle));
    }
    match check_array_handle(inner_handle) {
        Ok(()) => {},
        Err(e) => {
            return Err(e);
        },
    }
    proof {
        if !spec_all_stored(stores@, arguments@.len() as int) {
            lemma_first_failed_store_exists(stores@, arguments@.len() as int);
        }
    }
    match check_stores(arguments.len(), stores) {
        Ok(()) => {},
        Err(e) => {
            return Err(e);
        },
    }
    match check_array_handle(outer_handle) {
        Ok(()) => {},
        Err(e) => {
            return Err(e);
        },
    }
    match check_element_store(0, outer_store) {
        Ok(()) => {},
        Err(e) => {
            return Err(e);
        },
    }
    let items = encode_all(&arguments);
    assert(items@.len() == spec_units(items@).len());
    let inner = MarshaledArray { lower: 0, data: ArrayData::Strings(items) };
    let mut outer: Vec<MarshaledValue> = Vec::new();
    outer.push(MarshaledValue::Array(inner));
    assert(outer@[0] == MarshaledValue::Array(inner));
    let array = MarshaledArray { lower: 0, data: ArrayData::Variants(outer) };
    assert(spec_wrapped_units(array) == Some(spec_units(items@)));
    Ok(array)
}

/// Converts each wide string of a list to a native string.
fn decode_all(items: &Vec<Vec<u16>>) -> (list: Vec<String>)
    ensures
        spec_texts(list@) == spec_units(items@).map_values(|u: Seq<u16>| decode(u)),
{
    let mut list: Vec<String> = Vec::new();
    let mut i: usize = 0;
    while i < items.len()
        invariant
            0 <= i <= items.len(),
            list@.len() == i,
            forall|j: int| 0 <= j < i ==> (#[trigger] list@[j])@ == decode(items@[j]@),
        decreases items.len() - i,
    {
        let text = decode_utf16(&items[i]);
        list.push(text);
        i = i + 1;
    }
    assert(spec_texts(list@) =~= spec_units(items@).map_values(|u: Seq<u16>| decode(u)));
    list
}

/// Reads the strings of an argument array back; `None` where `array` does not
/// have the shape of one.
pub fn unwrap_final_array(array: &MarshaledArray) -> (r: Option<Vec<String>>)
    ensures
        r is Some <==> spec_wrapped_texts(*array) is Some,
        r matches Some(list) ==> Some(spec_texts(list@)) == spec_wrapped_texts(*array),
{
    match &array.data {
        ArrayData::Variants(outer) => {
            if outer.len() != 1 {
                return None;
            }
            match &outer[0] {
                MarshaledValue::Array(inner) => match &inner.data {
                    ArrayData::Strings(items) => Some(decode_all(items)),
                    _ => None,
                },
                _ => None,
            }
        },
        _ => None,
    }
}

/// A byte buffer that was marshaled into an array of bytes reads back as the
/// same bytes.
pub proof fn lemma_bytes_round_trip(contents: Seq<u8>, array: MarshaledArray)
    requires
        is_byte_array(array, contents),
    ensures
        spec_bytes(array) == Some(contents),
{
}

/// A list of strings that was marshaled into an argument array reads back as
/// a list of the same length with the same strings in the same order.
pub proof fn lemma_strings_round_trip(texts: Seq<Seq<char>>, array: MarshaledArray)
    requires
        is_final_array(array, texts),
    ensures
        spec_wrapped_texts(array) == Some(texts),
{
    let units = texts.map_values(|t: Seq<char>| encode(t));
    let back = units.map_values(|u: Seq<u16>| decode(u));
    assert forall|i: int| 0 <= i < texts.len() implies back[i] == texts[i] by {
        lemma_decode_encode(texts[i]);
    }
    assert(back =~= texts);
}

} // verus!
