use gpucanvas::fan::GPUVecExt;

#[test]
fn test_triangle_fan_indices_cw() {
    let expected1: Vec<u32> = vec![0, 1, 2, 0, 2, 3, 0, 3, 4];
    let mut result1 = Vec::<u32>::new();
    result1.extend_with_triange_fan_indices_cw(0, 5);
    assert!(expected1[..] == result1[..]);

    let expected2: Vec<u32> = vec![2, 3, 4, 2, 4, 5, 2, 5, 6];
    let mut result2 = Vec::<u32>::new();
    result2.extend_with_triange_fan_indices_cw(2, 5);
    assert!(expected2[..] == result2[..]);
}

#[test]
fn fan_of_fewer_than_three_vertices_is_empty() {
    let mut indices = vec![7u32];
    assert_eq!(indices.extend_with_triange_fan_indices_cw(4, 0), 0);
    assert_eq!(indices.extend_with_triange_fan_indices_cw(4, 1), 0);
    assert_eq!(indices.extend_with_triange_fan_indices_cw(4, 2), 0);
    assert_eq!(indices, vec![7u32]);
}

#[test]
fn fan_count_and_translation() {
    for count in 3u32..20 {
        let mut base = Vec::<u32>::new();
        let added = base.extend_with_triange_fan_indices_cw(0, count);
        assert_eq!(added, 3 * (count as usize - 2));
        assert_eq!(base.len(), added);
        let mut moved = Vec::<u32>::new();
        moved.extend_with_triange_fan_indices_cw(1000, count);
        let shifted: Vec<u32> = base.iter().map(|i| i + 1000).collect();
        assert_eq!(moved, shifted);
    }
}

#[test]
fn fan_appends_after_what_is_there() {
    let mut indices = vec![9u32, 9, 9];
    let added = indices.extend_with_triange_fan_indices_cw(10, 4);
    assert_eq!(added, 6);
    assert_eq!(indices, vec![9, 9, 9, 10, 11, 12, 10, 12, 13]);
}
