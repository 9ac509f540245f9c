use lux::primitive_canvas::{
    combine_flush_results, draw_params, extend_indices, is_coherent_group, plan_colored_draw,
    plan_textured_draw, BatchPlan, DrawParamModifier, PrimitiveType, Rect, StencilOperation,
    StencilState, StencilTest, StencilType,
};

#[test]
fn inverse_swaps_stencil_types() {
    assert_eq!(StencilType::Allow.inverse(), StencilType::Deny);
    assert_eq!(StencilType::Deny.inverse(), StencilType::Allow);
    assert_eq!(StencilType::Allow.inverse().inverse(), StencilType::Allow);
}

#[test]
fn new_modifier_has_no_scissor_and_no_stencil() {
    let m = DrawParamModifier::new();
    assert_eq!(m.scissor, None);
    assert_eq!(m.stencil_state, StencilState::Inactive);
}

#[test]
fn draw_params_without_stencil() {
    let m = DrawParamModifier::new();
    let p = draw_params(&m);
    assert_eq!(p.color_mask, (true, true, true, true));
    assert_eq!(p.stencil_test, StencilTest::AlwaysPass);
    assert_eq!(p.stencil_reference_value, 0);
    assert_eq!(p.stencil_fail_operation, StencilOperation::Keep);
    assert_eq!(p.depth_fail_operation, StencilOperation::Keep);
    assert_eq!(p.depth_pass_operation, StencilOperation::Keep);
    assert_eq!(p.stencil_write_mask, 0xffff_ffff);
    assert_eq!(p.scissor, None);
}

#[test]
fn draw_params_while_drawing_stencil() {
    let mut m = DrawParamModifier::new();
    m.begin_stencil(StencilType::Allow);
    let p = draw_params(&m);
    assert_eq!(p.color_mask, (false, false, false, false));
    assert_eq!(p.stencil_test, StencilTest::AlwaysFail);
    assert_eq!(p.stencil_reference_value, 1);
    assert_eq!(p.stencil_fail_operation, StencilOperation::Replace);

    m.begin_stencil(StencilType::Deny);
    let p = draw_params(&m);
    assert_eq!(p.stencil_reference_value, 0);
    assert_eq!(p.stencil_fail_operation, StencilOperation::Replace);
}

#[test]
fn draw_params_with_stencil_and_scissor() {
    let mut m = DrawParamModifier::new();
    m.end_stencil();
    m.set_scissor(Some((1, 2, 3, 4)));
    let p = draw_params(&m);
    assert_eq!(p.color_mask, (true, true, true, true));
    assert_eq!(p.stencil_test, StencilTest::IfEqual { mask: 0xFF });
    assert_eq!(p.stencil_reference_value, 1);
    assert_eq!(p.stencil_fail_operation, StencilOperation::Keep);
    assert_eq!(p.scissor, Some(Rect { left: 1, bottom: 2, width: 3, height: 4 }));
}

#[test]
fn scissor_is_flipped_and_restored() {
    let mut m = DrawParamModifier::new();
    m.set_scissor(Some((9, 9, 9, 9)));
    let old = m.enter_scissor(10, 20, 30, 40, 100);
    assert_eq!(old, Some((9, 9, 9, 9)));
    assert_eq!(m.scissor, Some((10, 40, 30, 40)));
    m.set_scissor(old);
    assert_eq!(m.scissor, Some((9, 9, 9, 9)));
    assert_eq!(m.take_scissor(), Some((9, 9, 9, 9)));
    assert_eq!(m.scissor, None);
}

#[test]
fn clear_stencil_values_and_states() {
    let mut m = DrawParamModifier::new();
    assert_eq!(m.clear_stencil(StencilType::Deny), 0);
    assert_eq!(m.stencil_state, StencilState::DrawingWithStencil);
    assert_eq!(m.clear_stencil(StencilType::Allow), 1);
    assert_eq!(m.stencil_state, StencilState::Inactive);
}

#[test]
fn stencil_allows_exactly_allow_regions() {
    // An Allow stencil writes the reference value that later draws test for.
    let mut m = DrawParamModifier::new();
    m.begin_stencil(StencilType::Allow);
    let written = draw_params(&m).stencil_reference_value;
    m.end_stencil();
    assert_eq!(written, draw_params(&m).stencil_reference_value);

    m.begin_stencil(StencilType::Deny);
    let written = draw_params(&m).stencil_reference_value;
    m.end_stencil();
    assert_ne!(written, draw_params(&m).stencil_reference_value);
}

#[test]
fn coherent_groups() {
    assert!(is_coherent_group(PrimitiveType::Points));
    assert!(is_coherent_group(PrimitiveType::LinesList));
    assert!(is_coherent_group(PrimitiveType::TrianglesList));
    assert!(!is_coherent_group(PrimitiveType::TriangleFan));
    assert!(!is_coherent_group(PrimitiveType::LineStrip));
    assert!(!is_coherent_group(PrimitiveType::Patches { vertices_per_patch: 3 }));
}

#[test]
fn colored_draw_plans() {
    let tl = PrimitiveType::TrianglesList;
    assert_eq!(plan_colored_draw(false, None, tl), BatchPlan { flush: false, start_new: true });
    assert_eq!(plan_colored_draw(false, Some(tl), tl), BatchPlan { flush: false, start_new: false });
    assert_eq!(
        plan_colored_draw(false, Some(PrimitiveType::Points), tl),
        BatchPlan { flush: true, start_new: true }
    );
    assert_eq!(plan_colored_draw(true, Some(tl), tl), BatchPlan { flush: true, start_new: true });
    let fan = PrimitiveType::TriangleFan;
    assert_eq!(plan_colored_draw(false, Some(fan), fan), BatchPlan { flush: true, start_new: true });
}

#[test]
fn textured_draw_plans() {
    let tl = PrimitiveType::TrianglesList;
    assert_eq!(plan_textured_draw(false, Some(tl), tl, true, true), BatchPlan { flush: false, start_new: false });
    assert_eq!(plan_textured_draw(false, Some(tl), tl, false, true), BatchPlan { flush: true, start_new: true });
    assert_eq!(plan_textured_draw(false, Some(tl), tl, true, false), BatchPlan { flush: true, start_new: true });
    assert_eq!(plan_textured_draw(true, None, tl, true, true), BatchPlan { flush: true, start_new: true });
    assert_eq!(plan_textured_draw(false, None, tl, false, false), BatchPlan { flush: false, start_new: true });
}

#[test]
fn indices_without_given_are_consecutive() {
    let mut idxs = vec![0u16, 1, 2];
    extend_indices(&mut idxs, 4, 3, None);
    assert_eq!(idxs, vec![0, 1, 2, 4, 5, 6]);
}

#[test]
fn given_indices_are_shifted() {
    let mut idxs = vec![];
    extend_indices(&mut idxs, 4, 4, Some(&[0, 1, 2, 0, 2, 3]));
    assert_eq!(idxs, vec![4, 5, 6, 4, 6, 7]);
}

#[test]
fn indices_up_to_the_limit() {
    let mut idxs = vec![];
    extend_indices(&mut idxs, u16::MAX - 1, 2, None);
    assert_eq!(idxs, vec![u16::MAX - 1, u16::MAX]);
}

#[test]
fn first_flush_error_wins() {
    let r: Result<(), &str> = combine_flush_results(Some(Err("a")), Some(Err("b")));
    assert_eq!(r, Err("a"));
    let r: Result<(), &str> = combine_flush_results(Some(Ok(())), Some(Err("b")));
    assert_eq!(r, Err("b"));
    let r: Result<(), &str> = combine_flush_results(None, Some(Ok(())));
    assert_eq!(r, Ok(()));
    let r: Result<(), &str> = combine_flush_results(None, None);
    assert_eq!(r, Ok(()));
}

/// The queued batches after a draw that follows `plan`, as a canvas keeps them.
fn apply_plan(
    queued: (Option<PrimitiveType>, Option<PrimitiveType>),
    colored: bool,
    typ: PrimitiveType,
    plan: BatchPlan,
) -> (Option<PrimitiveType>, Option<PrimitiveType>) {
    let (mut c, mut t) = if plan.flush { (None, None) } else { queued };
    if plan.start_new {
        if colored { c = Some(typ) } else { t = Some(typ) }
    }
    (c, t)
}

#[test]
fn one_batch_is_queued_at_a_time() {
    let tl = PrimitiveType::TrianglesList;
    let pts = PrimitiveType::Points;
    let mut q = (None, None);
    let plan = plan_colored_draw(q.1.is_some(), q.0, tl);
    q = apply_plan(q, true, tl, plan);
    assert_eq!(q, (Some(tl), None));
    let plan = plan_textured_draw(q.0.is_some(), q.1, pts, true, true);
    assert!(plan.flush);
    q = apply_plan(q, false, pts, plan);
    assert_eq!(q, (None, Some(pts)));
    let plan = plan_textured_draw(q.0.is_some(), q.1, pts, true, true);
    assert!(!plan.flush && !plan.start_new);
    q = apply_plan(q, false, pts, plan);
    assert_eq!(q, (None, Some(pts)));
    let plan = plan_colored_draw(q.1.is_some(), q.0, tl);
    assert!(plan.flush);
    q = apply_plan(q, true, tl, plan);
    assert_eq!(q, (Some(tl), None));
}
