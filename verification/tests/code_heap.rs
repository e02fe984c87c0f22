use cliptype::{
    build_injection_plan, CapabilityState, CodeAction, InjectionMode, InjectionPlan,
    PlanCapabilities, ProductCapabilities, ProductConfig, SensitiveText, TextAtom,
};

/// A heap sort written the way an editor shows it, with Chinese comments and
/// strings, used as a long multi-function Code-mode source.
const HEAP_SOURCE: &str = "use std::fmt::Debug;\n\
\n\
/// 维护最大堆性质\n\
fn heapify<T: Ord>(values: &mut [T], n: usize, i: usize) {\n\
    let mut largest = i;\n\
    let l = 2 * i + 1;\n\
    let r = 2 * i + 2;\n\
    if l < n && values[l] > values[largest] {\n\
        largest = l;\n\
    }\n\
    if r < n && values[r] > values[largest] {\n\
        largest = r;\n\
    }\n\
    if largest != i {\n\
        values.swap(i, largest);\n\
        heapify(values, n, largest);\n\
    }\n\
}\n\
\n\
/// 堆排序：先建堆，再逐个取出最大值\n\
pub fn heap_sort<T: Ord>(values: &mut [T]) {\n\
    let n = values.len();\n\
    for i in (0..n / 2).rev() {\n\
        heapify(values, n, i);\n\
    }\n\
    for end in (1..n).rev() {\n\
        values.swap(0, end);\n\
        heapify(values, end, 0);\n\
    }\n\
}\n\
\n\
fn show<T: Debug>(label: &str, values: &[T]) {\n\
    println!(\"{}: {:?}\", label, values);\n\
}\n\
\n\
fn main() {\n\
    let mut numbers = vec![12, 11, 13, 5, 6, 7];\n\
    heap_sort(&mut numbers);\n\
    show(\"排序后整数\", &numbers);\n\
    // 浮点数没有全序，先换算成整数再排序\n\
    let mut scaled = vec![350, 125, 200, 75];\n\
    heap_sort(&mut scaled);\n\
    show(\"排序后浮点数\", &scaled);\n\
    let mut words = vec![\"pear\", \"apple\", \"fig\"];\n\
    heap_sort(&mut words);\n\
    show(\"排序后字符串\", &words);\n\
}\n";

fn capabilities(paste: CapabilityState, cursor_right: CapabilityState) -> ProductCapabilities {
    ProductCapabilities {
        keyboard: PlanCapabilities {
            unicode_text: CapabilityState::Available,
            line_break: CapabilityState::Available,
            tab: CapabilityState::Available,
            cursor_right,
            modifier_observation: CapabilityState::Available,
        },
        clipboard_paste: paste,
        clipboard_revision_guard: paste,
    }
}

fn actions(source: &str) -> Vec<CodeAction> {
    let plan = build_injection_plan(
        SensitiveText::new(source.to_owned()),
        false,
        ProductConfig { mode: InjectionMode::Code, ..ProductConfig::default() },
        capabilities(CapabilityState::Unavailable, CapabilityState::Available),
    )
    .expect("Code mode needs no paste backend or clipboard revision");
    let InjectionPlan::Code(plan) = plan else {
        panic!("Code must not fall back to another backend");
    };
    plan.actions().to_vec()
}

fn scalars(actions: &[CodeAction]) -> String {
    actions
        .iter()
        .filter_map(|action| match action {
            CodeAction::Atom(TextAtom::Scalar(value)) => Some(*value),
            _ => None,
        })
        .collect()
}

#[test]
fn heap_sort_plan_continues_after_first_inner_closing_line() {
    let planned = actions(HEAP_SOURCE);
    let boundary = planned
        .iter()
        .position(|action| *action == CodeAction::CursorRightToLineEnd)
        .expect("inner if has a line-leading closer");
    let expected = [
        CodeAction::Atom(TextAtom::LineBreak),
        CodeAction::Atom(TextAtom::Scalar('i')),
        CodeAction::Atom(TextAtom::Scalar('f')),
        CodeAction::Atom(TextAtom::Scalar(' ')),
        CodeAction::Atom(TextAtom::Scalar('r')),
    ];
    assert!(planned[boundary + 1..boundary + 1 + expected.len()] == expected);
    assert!(planned.len() - boundary > 500, "tail must not be discarded");
    let tail = scalars(&planned[boundary + 1..]);
    assert!(tail.contains("pub fn heap_sort<T: Ord>"));
    assert!(tail.contains("fn main"));
    assert!(tail.contains("排序后浮点数"));
}

#[test]
fn lf_and_crlf_make_identical_code_plans() {
    let lf = HEAP_SOURCE.replace("\r\n", "\n");
    assert!(actions(&lf) == actions(&lf.replace('\n', "\r\n")));
}

#[test]
fn code_cannot_fall_back_to_available_paste_when_navigation_is_missing() {
    let result = build_injection_plan(
        SensitiveText::new(HEAP_SOURCE.to_owned()),
        true,
        ProductConfig { mode: InjectionMode::Code, ..ProductConfig::default() },
        capabilities(CapabilityState::Available, CapabilityState::Unavailable),
    );
    assert!(
        result.is_err(),
        "Code must fail closed, not paste, when keyboard navigation is unavailable"
    );
}

#[test]
fn repeated_heap_fixtures_preserve_every_function_and_the_final_tail() {
    let fixture = HEAP_SOURCE.replace("\r\n", "\n");
    let source = format!("{}\n// CLIPTYPE_HEAP_REGRESSION_END\n", fixture.repeat(4));
    let planned = actions(&source);
    let scalars = scalars(&planned);
    assert_eq!(scalars.matches("pub fn heap_sort<T: Ord>").count(), 4);
    assert_eq!(scalars.matches("fn main").count(), 4);
    assert_eq!(scalars.matches("排序后浮点数").count(), 4);
    assert!(scalars.ends_with("// CLIPTYPE_HEAP_REGRESSION_END"));
    assert!(planned == actions(&source.replace('\n', "\r\n")));
}
