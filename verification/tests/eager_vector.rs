use lazyvec::vector::Vector;

#[test]
fn eager_construction_identities() {
    let z: Vector<6> = Vector::zeros();
    let o: Vector<6> = Vector::ones();
    assert_eq!(z.elements, [0; 6]);
    assert_eq!(o.elements, [1; 6]);
}

#[test]
fn eager_add_materializes_the_sum() {
    let a: Vector<4> = Vector { elements: [1, -2, 3, -4] };
    let b: Vector<4> = Vector { elements: [10, 20, -30, 40] };
    let v = a.add(b);
    assert_eq!(v.elements, [11, 18, -27, 36]);
    assert_eq!(a.elements, [1, -2, 3, -4]);
    assert_eq!(b.elements, [10, 20, -30, 40]);
}

#[test]
fn eager_add_assign_mutates_in_place() {
    let mut dest: Vector<3> = Vector { elements: [5, 6, 7] };
    let other: Vector<3> = Vector { elements: [-1, 0, 1] };
    dest.add_assign(other);
    assert_eq!(dest.elements, [4, 6, 8]);
}

#[test]
fn eager_chain_sums_all_operands() {
    let a: Vector<2> = Vector { elements: [1, 1] };
    let b: Vector<2> = Vector { elements: [2, 2] };
    let c: Vector<2> = Vector { elements: [3, 3] };
    let d: Vector<2> = Vector { elements: [4, 4] };
    let mut sum: Vector<2> = Vector::zeros();
    sum.add_assign(a.add(b).add(c).add(d));
    assert_eq!(sum.elements, [10, 10]);
}
