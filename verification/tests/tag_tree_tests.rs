use jpeg2000::tag_tree::TagTreeDecoder;

#[test]
fn test_basic() {
    // Test basic tag tree from B.10.2
    let mut tt = TagTreeDecoder::new(6, 3);

    assert_eq!(3, tt.max_depth);

    assert!(tt.push_bit(0).is_none()); // 0.0,0 inc -> 1
    assert!(tt.push_bit(1).is_none()); // set 0. 0,0 = 1
    assert!(tt.push_bit(1).is_none()); // set 1. 0,0 = 1
    assert!(tt.push_bit(1).is_none()); // set 2. 0,0 = 1
    assert_eq!(Some(1), tt.push_bit(1)); // set 3. 0,0 = 1, ret
                                         //
    assert!(tt.push_bit(0).is_none()); // inc -> 2
    assert!(tt.push_bit(0).is_none()); // inc -> 3
    assert_eq!(Some(3), tt.push_bit(1)); // set 3. 1,0 = 3
                                         //
    assert!(tt.push_bit(1).is_none()); // set 2.1,0 = 1
    assert!(tt.push_bit(0).is_none()); // inc -> 2
    assert_eq!(Some(2), tt.push_bit(1)); // set 3.2,0 = 2
                                         //
    assert!(tt.push_bit(0).is_none()); // inc -> 2
    assert!(tt.push_bit(0).is_none()); // inc -> 3
    assert_eq!(Some(3), tt.push_bit(1)); // set 3.3,0 = 3

    assert!(tt.push_bit(1).is_none()); // set 1,1,0 = 1
    assert!(tt.push_bit(0).is_none()); // inc -> 2
    assert!(tt.push_bit(1).is_none()); // set 2,2,0 = 2
    assert_eq!(Some(2), tt.push_bit(1)); // set 3.4,0 = 2

    assert!(tt.push_bit(0).is_none());
    assert_eq!(Some(3), tt.push_bit(1)); // 3,5,0

    // Next row
    assert!(tt.push_bit(0).is_none());
    assert_eq!(Some(2), tt.push_bit(1)); // 3,0,1

    assert!(tt.push_bit(0).is_none());
    assert_eq!(Some(2), tt.push_bit(1)); // 3,1,1

    assert_eq!(Some(1), tt.push_bit(1)); // 3,2,1
    assert!(tt.push_bit(0).is_none());
    assert!(tt.push_bit(0).is_none());
    assert!(tt.push_bit(0).is_none());
    assert_eq!(Some(4), tt.push_bit(1)); // 3,3,1
    assert!(tt.push_bit(0).is_none());
    assert_eq!(Some(3), tt.push_bit(1)); // 3,4,1
    assert_eq!(Some(2), tt.push_bit(1)); // 3,5,1

    // Next row
    assert!(tt.push_bit(0).is_none());
    assert!(tt.push_bit(1).is_none()); // 2,0,1
    assert_eq!(Some(2), tt.push_bit(1)); // 3,0,2
    assert_eq!(Some(2), tt.push_bit(1)); // 3,1,2
    assert!(tt.push_bit(0).is_none());
    assert!(tt.push_bit(1).is_none()); // 2,1,1
    assert_eq!(Some(2), tt.push_bit(1)); // 3,2,2
    assert_eq!(Some(2), tt.push_bit(1)); // 3,3,2
    assert!(tt.push_bit(1).is_none()); // 2,2,1
    assert_eq!(Some(1), tt.push_bit(1)); // 3,4,2
    assert!(tt.push_bit(0).is_none());
    assert_eq!(Some(2), tt.push_bit(1)); // 3,5,2
}

#[test]
fn test_single_node_tree() {
    // A 1-by-1 grid: the root is the only leaf.
    let mut tt = TagTreeDecoder::new(1, 1);
    assert_eq!(0, tt.max_depth);
    assert!(tt.push_bit(0).is_none());
    assert!(tt.push_bit(0).is_none());
    assert_eq!(Some(2), tt.push_bit(1));
}

#[test]
fn test_full_two_by_two_tree() {
    // Filling a complete 2-by-2 grid, including the final leaf whose
    // walk backs up through a full tree.
    let mut tt = TagTreeDecoder::new(2, 2);
    assert_eq!(1, tt.max_depth);

    // Root = 1.
    assert!(tt.push_bit(0).is_none());
    assert!(tt.push_bit(1).is_none());
    // Leaves 1, 2, 1, 3.
    assert_eq!(Some(1), tt.push_bit(1));
    assert!(tt.push_bit(0).is_none());
    assert_eq!(Some(2), tt.push_bit(1));
    assert_eq!(Some(1), tt.push_bit(1));
    assert!(tt.push_bit(0).is_none());
    assert!(tt.push_bit(0).is_none());
    assert_eq!(Some(3), tt.push_bit(1));
}

#[test]
fn test_depths_by_grid_size() {
    assert_eq!(TagTreeDecoder::new(1, 1).max_depth, 0);
    assert_eq!(TagTreeDecoder::new(2, 1).max_depth, 1);
    assert_eq!(TagTreeDecoder::new(4, 4).max_depth, 2);
    assert_eq!(TagTreeDecoder::new(5, 2).max_depth, 3);
    assert_eq!(TagTreeDecoder::new(16, 16).max_depth, 4);
}
