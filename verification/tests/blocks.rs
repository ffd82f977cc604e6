use anvil_store::block::{fmt_block_state, BlockKind, PropValue};

#[test]
fn get_set_consistency() {
    for kind in BlockKind::all() {
        let block = kind.to_state();

        for &prop in block.kind.props().iter() {
            let new_block = block.set(prop, block.get(prop).unwrap());
            assert_eq!(new_block, block);
        }
    }
}

#[test]
fn blockstate_to_wall() {
    assert_eq!(BlockKind::Stone.to_state().wall_block_id(), None);
    assert_eq!(
        BlockKind::OakSign.to_state().wall_block_id(),
        Some(BlockKind::OakWallSign.to_state())
    );
    assert_eq!(
        BlockKind::GreenBanner.to_state().wall_block_id(),
        Some(BlockKind::GreenWallBanner.to_state())
    );
    assert_ne!(
        BlockKind::GreenBanner.to_state().wall_block_id(),
        Some(BlockKind::GreenBanner.to_state())
    );
}

#[test]
fn formatting_shows_kind_and_props() {
    assert_eq!(fmt_block_state(BlockKind::Stone.to_state()), "stone");
    assert_eq!(
        fmt_block_state(BlockKind::OakSign.to_state()),
        "oak_sign[rotation=0, waterlogged=false]"
    );
    let wet = BlockKind::OakSign.to_state().set(
        anvil_store::block::PropName::Waterlogged,
        PropValue::True,
    );
    assert_eq!(fmt_block_state(wet), "oak_sign[rotation=0, waterlogged=true]");
    assert_eq!(
        fmt_block_state(BlockKind::GreenWallBanner.to_state()),
        "green_wall_banner[facing=north]"
    );
}

#[test]
fn set_rejects_unfitting_values() {
    let sign = BlockKind::OakSign.to_state();
    // a facing value does not fit the rotation property
    assert_eq!(sign.set(anvil_store::block::PropName::Rotation, PropValue::North), sign);
    // stone has no properties at all
    let stone = BlockKind::Stone.to_state();
    assert_eq!(stone.get(anvil_store::block::PropName::Rotation), None);
    assert_eq!(stone.set(anvil_store::block::PropName::Rotation, PropValue::R1), stone);
}