use meta_model::vnode::ArrayImpl;
use meta_model::vnode::DataChunk;
use meta_model::vnode::ScalarImpl;
use meta_model::vnode::VirtualNode;
use meta_model::vnode::DEFAULT_VNODE_COUNT;
use meta_model::vnode::MAX_VNODE_COUNT;

/// Makes row ids for a set of virtual nodes, taking the nodes in turn: the virtual node
/// stands above the twelve bits of the sequence, the time above both.
struct RowIdGenerator {
    vnodes: Vec<VirtualNode>,
    vnodes_index: usize,
    sequence: i64,
    timestamp_ms: i64,
}

impl RowIdGenerator {
    fn new(vnodes: impl IntoIterator<Item = VirtualNode>) -> Self {
        RowIdGenerator {
            vnodes: vnodes.into_iter().collect(),
            vnodes_index: 0,
            sequence: 0,
            timestamp_ms: 1_700_000_000_123,
        }
    }

    fn next(&mut self) -> i64 {
        let vnode = self.vnodes[self.vnodes_index].to_index() as i64;
        let id = self.timestamp_ms << 22 | vnode << 12 | self.sequence;
        self.vnodes_index += 1;
        if self.vnodes_index == self.vnodes.len() {
            self.vnodes_index = 0;
            self.sequence += 1;
        }
        id
    }
}

fn serial_and_int_chunk(ids: Vec<i64>) -> DataChunk {
    let rows = ids.len();
    let ints = (1..=rows as i64).map(Some).collect();
    DataChunk::new(
        vec![
            ArrayImpl::Serial(ids.into_iter().map(Some).collect()),
            ArrayImpl::Int64(ints),
        ],
        rows,
    )
    .unwrap()
}

#[test]
fn test_serial_key_chunk() {
    let mut gen = RowIdGenerator::new([VirtualNode::from_index(100)]);
    let chunk = serial_and_int_chunk(vec![gen.next(), gen.next()]);
    let vnodes = VirtualNode::compute_chunk(&chunk, &[0], &[11, 12], &[21, 22], DEFAULT_VNODE_COUNT);

    assert_eq!(
        vnodes.as_slice(),
        &[VirtualNode::from_index(100), VirtualNode::from_index(100)]
    );
}

#[test]
fn test_serial_key_row() {
    let mut gen = RowIdGenerator::new([VirtualNode::from_index(100)]);
    let row = vec![
        Some(ScalarImpl::Serial(gen.next())),
        Some(ScalarImpl::Int64(12345)),
    ];

    let vnode = VirtualNode::compute_row(&row, &[0], 77, DEFAULT_VNODE_COUNT);

    assert_eq!(vnode, VirtualNode::from_index(100));
}

#[test]
fn test_serial_key_chunk_multiple_vnodes() {
    let mut gen = RowIdGenerator::new([100, 200].map(VirtualNode::from_index));
    let chunk = serial_and_int_chunk(vec![gen.next(), gen.next(), gen.next(), gen.next()]);
    let vnodes = VirtualNode::compute_chunk(
        &chunk,
        &[0],
        &[11, 12, 13, 14],
        &[21, 22, 23, 24],
        DEFAULT_VNODE_COUNT,
    );

    assert_eq!(
        vnodes.as_slice(),
        &[
            VirtualNode::from_index(100),
            VirtualNode::from_index(200),
            VirtualNode::from_index(100),
            VirtualNode::from_index(200),
        ]
    );
}

#[test]
fn row_without_a_single_serial_key_goes_by_its_hash() {
    let row = vec![
        Some(ScalarImpl::Serial(100 << 12)),
        Some(ScalarImpl::Int64(12345)),
        None,
    ];
    // the key is no row id
    assert_eq!(
        VirtualNode::from_index(1000 % 256),
        VirtualNode::compute_row(&row, &[1], 1000, 256)
    );
    // the key is missing
    assert_eq!(
        VirtualNode::from_index(7),
        VirtualNode::compute_row(&row, &[2], 7, 256)
    );
    // two keys, the row id among them
    assert_eq!(
        VirtualNode::from_index(300 % 256),
        VirtualNode::compute_row(&row, &[0, 1], 300, 256)
    );
    // no key at all
    assert_eq!(
        VirtualNode::from_index(5),
        VirtualNode::compute_row(&row, &[], 5 + 3 * 1024, 1024)
    );
}

#[test]
fn chunk_rows_without_a_row_id_go_by_the_hash_of_the_row() {
    let chunk = DataChunk::new(
        vec![ArrayImpl::Serial(vec![Some(3 << 12), None, Some(4 << 12 | 17)])],
        3,
    )
    .unwrap();
    let vnodes = VirtualNode::compute_chunk(&chunk, &[0], &[250, 251, 252], &[260, 261, 262], 256);
    assert_eq!(
        vnodes,
        vec![
            VirtualNode::from_index(3),
            VirtualNode::from_index(261 - 256),
            VirtualNode::from_index(4),
        ]
    );
}

#[test]
fn chunk_without_a_single_serial_key_goes_by_the_hashes_of_the_keys() {
    let chunk = DataChunk::new(
        vec![
            ArrayImpl::Serial(vec![Some(3 << 12), Some(4 << 12)]),
            ArrayImpl::Bool(vec![Some(true), None]),
        ],
        2,
    )
    .unwrap();
    let by_bool = VirtualNode::compute_chunk(&chunk, &[1], &[250, 600], &[1, 2], 256);
    assert_eq!(
        by_bool,
        vec![VirtualNode::from_index(250), VirtualNode::from_index(600 - 512)]
    );
    let by_both = VirtualNode::compute_chunk(&chunk, &[0, 1], &[250, 600], &[1, 2], 256);
    assert_eq!(by_bool, by_both);
    let by_none = VirtualNode::compute_chunk(&chunk, &[], &[250, 600], &[1, 2], 256);
    assert_eq!(by_bool, by_none);
}

#[test]
fn chunk_columns_must_have_one_entry_for_each_row() {
    assert!(DataChunk::new(vec![ArrayImpl::Int16(vec![Some(1)])], 2).is_none());
    assert!(DataChunk::new(vec![], 2).is_some());
    let chunk = DataChunk::new(vec![ArrayImpl::Int32(vec![Some(1), None])], 2).unwrap();
    assert_eq!(2, chunk.capacity());
    assert_eq!(2, chunk.column_at(0).len());
}

#[test]
fn row_id_carries_its_virtual_node_above_twelve_bits() {
    assert_eq!(
        VirtualNode::from_index(0),
        VirtualNode::extract_vnode_id_from_row_id(0xfff)
    );
    assert_eq!(
        VirtualNode::from_index(1),
        VirtualNode::extract_vnode_id_from_row_id(0x1000)
    );
    assert_eq!(
        VirtualNode::from_index(1023),
        VirtualNode::extract_vnode_id_from_row_id(0x3f_ffff)
    );
    assert_eq!(
        VirtualNode::from_index(0),
        VirtualNode::extract_vnode_id_from_row_id(0x40_0000)
    );
    assert_eq!(
        VirtualNode::from_index(1023),
        VirtualNode::extract_vnode_id_from_row_id(-1)
    );
}

#[test]
fn virtual_node_conversions() {
    assert_eq!(256, DEFAULT_VNODE_COUNT);
    assert_eq!(65536, MAX_VNODE_COUNT);
    assert_eq!(256, VirtualNode::count(None));
    assert_eq!(1024, VirtualNode::count(Some(1024)));
    assert_eq!(VirtualNode::from_index(255), VirtualNode::max(256));
    assert_eq!(VirtualNode::from_index(0), VirtualNode::max(1));
    assert_eq!(300, VirtualNode::from_index(300).to_index());
    assert_eq!(VirtualNode::from_index(300), VirtualNode::from_scalar(300));
    assert_eq!(300, VirtualNode::from_index(300).to_scalar());
    assert_eq!(-1, VirtualNode::from_index(65535).to_scalar());
    assert_eq!(-32768, VirtualNode::from_index(32768).to_scalar());
    assert_eq!(32767, VirtualNode::from_index(32767).to_scalar());
    assert_eq!(
        Some(ScalarImpl::Int16(12)),
        VirtualNode::from_index(12).to_datum()
    );
    assert_eq!(
        VirtualNode::from_index(12),
        VirtualNode::from_datum(&Some(ScalarImpl::Int16(12)))
    );
    assert_eq!([0x01, 0x02], VirtualNode::from_index(0x0102).to_be_bytes());
    assert_eq!(
        VirtualNode::from_index(0x0102),
        VirtualNode::from_be_bytes([0x01, 0x02])
    );
    assert_eq!(VirtualNode::from_index(44), VirtualNode::from_hash(300, 256));
    assert!(VirtualNode::from_index(1) < VirtualNode::from_index(2));
}

#[test]
fn all_virtual_nodes_by_ascending_number() {
    let all = VirtualNode::all(256);
    assert_eq!(256, all.len());
    for (i, vnode) in all.iter().enumerate() {
        assert_eq!(i, vnode.to_index());
    }
    assert_eq!(vec![VirtualNode::from_index(0)], VirtualNode::all(1));
}
