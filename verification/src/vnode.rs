//! Virtual nodes: the partitions that keys are spread over, and how the virtual node of a
//! row is found.

use vstd::prelude::*;
use itertools::Itertools;

verus! {

/// The count of virtual nodes where none is configured.
pub const DEFAULT_VNODE_COUNT: usize = 256;

/// No count of virtual nodes is above this: a virtual node is held in sixteen bits.
pub const MAX_VNODE_COUNT: usize = 0x1_0000;

/// A row id holds the virtual node that made it above this many low bits, which count
/// the rows made in one millisecond.
pub const ROW_ID_VNODE_SHIFT: u64 = 12;

/// The ten bits of the virtual node in a row id, once the bits below are shifted out.
/// What stands above them is the time.
pub const ROW_ID_VNODE_MASK: u64 = 0x3ff;

/// A value of a row.
#[derive(Clone, Copy, Debug, PartialEq, Eq)]
pub enum ScalarImpl {
    Int16(i16),
    Int32(i32),
    Int64(i64),
    /// A row id.
    Serial(i64),
    Bool(bool),
}

/// A value of a row, or none.
pub type Datum = Option<ScalarImpl>;

/// A column of a chunk of rows, with one entry for each row.
#[derive(Debug)]
pub enum ArrayImpl {
    Int16(Vec<Option<i16>>),
    Int32(Vec<Option<i32>>),
    Int64(Vec<Option<i64>>),
    /// Row ids.
    Serial(Vec<Option<i64>>),
    Bool(Vec<Option<bool>>),
}

impl ArrayImpl {
    /// The number of entries of the column.
    pub open spec fn spec_len(&self) -> nat {
        match *self {
            ArrayImpl::Int16(a) => a@.len(),
            ArrayImpl::Int32(a) => a@.len(),
            ArrayImpl::Int64(a) => a@.len(),
            ArrayImpl::Serial(a) => a@.len(),
            ArrayImpl::Bool(a) => a@.len(),
        }
    }

    /// The number of entries of the column.
    pub fn len(&self) -> (r: usize)
        ensures
            r == self.spec_len(),
    {
        match self {
            ArrayImpl::Int16(a) => a.len(),
            ArrayImpl::Int32(a) => a.len(),
            ArrayImpl::Int64(a) => a.len(),
            ArrayImpl::Serial(a) => a.len(),
            ArrayImpl::Bool(a) => a.len(),
        }
    }
}

/// A chunk of rows, held by column.
#[derive(Debug)]
pub struct DataChunk {
    columns: Vec<ArrayImpl>,
    capacity: usize,
}

impl DataChunk {
    /// The columns of the chunk.
    pub closed spec fn columns(&self) -> Seq<ArrayImpl> {
        self.columns@
    }

    /// The number of rows of the chunk.
    pub closed spec fn rows(&self) -> nat {
        self.capacity as nat
    }

    /// Whether every column has one entry for each row.
    pub open spec fn wf(&self) -> bool {
        forall|i: int| 0 <= i < self.columns().len() ==> (#[trigger] self.columns()[i]).spec_len()
            == self.rows()
    }

    /// A chunk of `capacity` rows out of `columns`, or none where a column has another
    /// number of entries.
    pub fn new(columns: Vec<ArrayImpl>, capacity: usize) -> (r: Option<DataChunk>)
        ensures
            r is Some <==> forall|i: int|
                0 <= i < columns@.len() ==> (#[trigger] columns@[i]).spec_len() == capacity,
            r matches Some(chunk) ==> chunk.wf() && chunk.columns() == columns@ && chunk.rows()
                == capacity,
    {
        let mut i: usize = 0;
        while i < columns.len()
            invariant
                i <= columns.len(),
                forall|j: int| 0 <= j < i ==> (#[trigger] columns@[j]).spec_len() == capacity,
            decreases columns.len() - i,
        {
            if columns[i].len() != capacity {
                return None;
            }
            i = i + 1;
        }
        Some(DataChunk { columns, capacity })
    }

    /// The number of rows of the chunk.
    pub fn capacity(&self) -> (r: usize)
        ensures
            r == self.rows(),
    {
        self.capacity
    }

    /// The column at `idx`.
    pub fn column_at(&self, idx: usize) -> (r: &ArrayImpl)
        requires
            idx < self.columns().len(),
        ensures
            *r == self.columns()[idx as int],
    {
        &self.columns[idx]
    }
}

/// The one item of `items` where it has exactly one.
///
/// Calls `Itertools::exactly_one` on the iterator over `items`, which returns the item
/// where the iterator yields exactly one and an error otherwise.
#[verifier::external_body]
fn exactly_one<'a, T>(items: &'a [T]) -> (r: Option<&'a T>)
    ensures
        r == (if items@.len() == 1 {
            Some(&items@[0])
        } else {
            None
        }),
{
    items.iter().exactly_one().ok()
}

/// The smallest partition that a set of keys belongs to. Keys are spread over the virtual
/// nodes by their hash; a row that a virtual node made carries the node in its row id.
#[derive(Clone, Copy, Debug, PartialEq, Eq, Hash, PartialOrd, Ord)]
pub struct VirtualNode(u16);

/// The virtual node that a row id carries.
pub open spec fn vnode_of_row_id(id: i64) -> nat {
    (((id as u64) >> ROW_ID_VNODE_SHIFT) & ROW_ID_VNODE_MASK) as nat
}

/// The virtual node of a hash code among `vnode_count` virtual nodes.
pub open spec fn vnode_of_hash(hash_code: u64, vnode_count: usize) -> nat {
    (hash_code % (vnode_count as u64)) as nat
}

impl VirtualNode {
    /// The number of the virtual node.
    pub closed spec fn index(self) -> nat {
        self.0 as nat
    }

    /// The count of virtual nodes: the configured one, or [`DEFAULT_VNODE_COUNT`].
    pub fn count(configured: Option<usize>) -> (r: usize)
        requires
            configured matches Some(c) ==> 0 < c <= MAX_VNODE_COUNT,
        ensures
            r == (match configured {
                Some(c) => c,
                None => DEFAULT_VNODE_COUNT,
            }),
            0 < r <= MAX_VNODE_COUNT,
    {
        match configured {
            Some(c) => c,
            None => DEFAULT_VNODE_COUNT,
        }
    }

    /// The last of `vnode_count` virtual nodes.
    pub fn max(vnode_count: usize) -> (r: VirtualNode)
        requires
            0 < vnode_count <= MAX_VNODE_COUNT,
        ensures
            r.index() == vnode_count - 1,
    {
        VirtualNode::from_index(vnode_count - 1)
    }

    /// The virtual node with the number `index`.
    pub fn from_index(index: usize) -> (r: Self)
        requires
            index < MAX_VNODE_COUNT,
        ensures
            r.index() == index,
    {
        VirtualNode(index as u16)
    }

    /// The number of the virtual node, for indexing.
    pub fn to_index(self) -> (r: usize)
        ensures
            r == self.index(),
    {
        self.0 as usize
    }

    /// The virtual node that a scalar stands for.
    pub fn from_scalar(scalar: i16) -> (r: Self)
        requires
            scalar >= 0,
        ensures
            r.index() == scalar,
    {
        VirtualNode(scalar as u16)
    }

    /// The virtual node that a datum stands for, which must hold a scalar of sixteen bits.
    pub fn from_datum(datum: &Datum) -> (r: Self)
        requires
            datum matches Some(ScalarImpl::Int16(scalar)) && scalar >= 0,
        ensures
            datum matches Some(ScalarImpl::Int16(scalar)) && r.index() == scalar,
    {
        match datum {
            Some(ScalarImpl::Int16(scalar)) => VirtualNode::from_scalar(*scalar),
            _ => unreached(),
        }
    }

    /// The scalar that stands for the virtual node: its number, taken as a signed number
    /// of sixteen bits.
    pub fn to_scalar(self) -> (r: i16)
        ensures
            r == (if self.index() < 0x8000 {
                self.index() as int
            } else {
                self.index() - 0x1_0000
            }),
    {
        if self.0 < 0x8000 {
            self.0 as i16
        } else {
            (self.0 as i32 - 0x1_0000) as i16
        }
    }

    /// The datum that stands for the virtual node.
    pub fn to_datum(self) -> (r: Datum)
        ensures
            r matches Some(ScalarImpl::Int16(scalar)) && scalar == (if self.index() < 0x8000 {
                self.index() as int
            } else {
                self.index() - 0x1_0000
            }),
    {
        Some(ScalarImpl::Int16(self.to_scalar()))
    }

    /// The virtual node whose number the two bytes hold, high byte first.
    pub fn from_be_bytes(bytes: [u8; 2]) -> (r: Self)
        ensures
            r.index() == bytes[0] * 0x100 + bytes[1],
    {
        VirtualNode(bytes[0] as u16 * 0x100 + bytes[1] as u16)
    }

    /// The number of the virtual node in two bytes, high byte first.
    pub fn to_be_bytes(self) -> (r: [u8; 2])
        ensures
            r[0] * 0x100 + r[1] == self.index(),
    {
        [(self.0 / 0x100) as u8, (self.0 % 0x100) as u8]
    }

    /// All of `vnode_count` virtual nodes, by ascending number.
    pub fn all(vnode_count: usize) -> (r: Vec<VirtualNode>)
        requires
            0 < vnode_count <= MAX_VNODE_COUNT,
        ensures
            r@.len() == vnode_count,
            forall|i: int| 0 <= i < vnode_count ==> (#[trigger] r@[i]).index() == i,
    {
        let mut nodes: Vec<VirtualNode> = Vec::new();
        let mut index: usize = 0;
        while index < vnode_count
            invariant
                index <= vnode_count <= MAX_VNODE_COUNT,
                nodes@.len() == index,
                forall|i: int| 0 <= i < index ==> (#[trigger] nodes@[i]).index() == i,
            decreases vnode_count - index,
        {
            nodes.push(VirtualNode::from_index(index));
            index = index + 1;
        }
        nodes
    }

    /// The virtual node of a hash code among `vnode_count` virtual nodes: the remainder of
    /// the hash code by the count.
    pub fn from_hash(hash_code: u64, vnode_count: usize) -> (r: Self)
        requires
            0 < vnode_count <= MAX_VNODE_COUNT,
        ensures
            r.index() == vnode_of_hash(hash_code, vnode_count),
    {
        VirtualNode::from_index((hash_code % (vnode_count as u64)) as usize)
    }

    /// The virtual node that made the row with the id `id`.
    pub fn extract_vnode_id_from_row_id(id: i64) -> (r: Self)
        ensures
            r.index() == vnode_of_row_id(id),
    {
        let bits = id as u64;
        let vnode_id = (bits >> ROW_ID_VNODE_SHIFT) & ROW_ID_VNODE_MASK;
        assert(((bits >> 12) & 0x3ff) < 0x400) by (bit_vector);
        VirtualNode::from_index(vnode_id as usize)
    }

    /// The virtual node of a row, by the columns at `indices`.
    ///
    /// Where `indices` names one column and the row holds a row id there, it is the
    /// virtual node that the row id carries. Otherwise it is the virtual node of
    /// `hash_code`, which is the hash of the row's values at `indices`.
    pub fn compute_row(row: &[Datum], indices: &[usize], hash_code: u64, vnode_count: usize) -> (r:
        VirtualNode)
        requires
            0 < vnode_count <= MAX_VNODE_COUNT,
            forall|i: int| 0 <= i < indices@.len() ==> indices@[i] < row@.len(),
        ensures
            r.index() == (if indices@.len() == 1 {
                match row@[indices@[0] as int] {
                    Some(ScalarImpl::Serial(id)) => vnode_of_row_id(id),
                    _ => vnode_of_hash(hash_code, vnode_count),
                }
            } else {
                vnode_of_hash(hash_code, vnode_count)
            }),
    {
        if let Some(idx) = exactly_one(indices) {
            if let Some(ScalarImpl::Serial(id)) = &row[*idx] {
                return VirtualNode::extract_vnode_id_from_row_id(*id);
            }
        }
        VirtualNode::from_hash(hash_code, vnode_count)
    }

    /// The virtual node of each row of a chunk, by the columns at `keys`.
    ///
    /// Where `keys` names one column and that column holds row ids, a row with a row id
    /// gets the virtual node that the id carries, and a row without gets the virtual node
    /// of its entry in `row_hashes`, the hashes of the whole rows. Otherwise each row gets
    /// the virtual node of its entry in `key_hashes`, the hashes of the rows' values at
    /// `keys`.
    pub fn compute_chunk(
        data_chunk: &DataChunk,
        keys: &[usize],
        key_hashes: &[u64],
        row_hashes: &[u64],
        vnode_count: usize,
    ) -> (r: Vec<VirtualNode>)
        requires
            0 < vnode_count <= MAX_VNODE_COUNT,
            data_chunk.wf(),
            forall|i: int| 0 <= i < keys@.len() ==> keys@[i] < data_chunk.columns().len(),
            key_hashes@.len() == data_chunk.rows(),
            row_hashes@.len() == data_chunk.rows(),
        ensures
            r@.len() == data_chunk.rows(),
            forall|i: int|
                0 <= i < r@.len() ==> (#[trigger] r@[i]).index() == chunk_vnode(
                    data_chunk.columns(),
                    keys@,
                    key_hashes@,
                    row_hashes@,
                    vnode_count,
                    i,
                ),
    {
        let rows = data_chunk.capacity();
        let mut vnodes: Vec<VirtualNode> = Vec::new();
        if let Some(idx) = exactly_one(keys) {
            if let ArrayImpl::Serial(serial_array) = data_chunk.column_at(*idx) {
                assert(data_chunk.columns()[*idx as int].spec_len() == rows);
                let mut i: usize = 0;
                while i < rows
                    invariant
                        i <= rows,
                        rows == data_chunk.rows(),
                        0 < vnode_count <= MAX_VNODE_COUNT,
                        keys@.len() == 1,
                        data_chunk.columns()[keys@[0] as int] == ArrayImpl::Serial(*serial_array),
                        serial_array@.len() == rows,
                        row_hashes@.len() == rows,
                        vnodes@.len() == i,
                        forall|j: int|
                            0 <= j < i ==> (#[trigger] vnodes@[j]).index() == chunk_vnode(
                                data_chunk.columns(),
                                keys@,
                                key_hashes@,
                                row_hashes@,
                                vnode_count,
                                j,
                            ),
                    decreases rows - i,
                {
                    let vnode = match serial_array[i] {
                        Some(id) => VirtualNode::extract_vnode_id_from_row_id(id),
                        None => VirtualNode::from_hash(row_hashes[i], vnode_count),
                    };
                    vnodes.push(vnode);
                    i = i + 1;
                }
                return vnodes;
            }
        }
        let mut i: usize = 0;
        while i < rows
            invariant
                i <= rows,
                rows == data_chunk.rows(),
                0 < vnode_count <= MAX_VNODE_COUNT,
                !(keys@.len() == 1 && data_chunk.columns()[keys@[0] as int] is Serial),
                key_hashes@.len() == rows,
                vnodes@.len() == i,
                forall|j: int|
                    0 <= j < i ==> (#[trigger] vnodes@[j]).index() == chunk_vnode(
                        data_chunk.columns(),
                        keys@,
                        key_hashes@,
                        row_hashes@,
                        vnode_count,
                        j,
                    ),
            decreases rows - i,
        {
            vnodes.push(VirtualNode::from_hash(key_hashes[i], vnode_count));
            i = i + 1;
        }
        vnodes
    }
}

/// The virtual node of row `i` of a chunk with the columns `columns`, by the columns at
/// `keys`.
pub open spec fn chunk_vnode(
    columns: Seq<ArrayImpl>,
    keys: Seq<usize>,
    key_hashes: Seq<u64>,
    row_hashes: Seq<u64>,
    vnode_count: usize,
    i: int,
) -> nat {
    if keys.len() == 1 && columns[keys[0] as int] is Serial {
        match columns[keys[0] as int]->Serial_0@[i] {
            Some(id) => vnode_of_row_id(id),
            None => vnode_of_hash(row_hashes[i], vnode_count),
        }
    } else {
        vnode_of_hash(key_hashes[i], vnode_count)
    }
}

} // verus!
