use cliptype::{
    build_injection_plan, AutoClipboardThreshold, CapabilityRequirement, CapabilityState,
    CodeAction, InjectionBackend, InjectionMode, InjectionPlan, P1Config, PlanCapabilities,
    PlanError, ProductCapabilities, ProductConfig, ProductPlanError, SensitiveText, TextAtom,
};

fn capabilities() -> ProductCapabilities {
    ProductCapabilities {
        keyboard: PlanCapabilities {
            unicode_text: CapabilityState::Available,
            line_break: CapabilityState::Available,
            tab: CapabilityState::Available,
            cursor_right: CapabilityState::Available,
            modifier_observation: CapabilityState::Available,
        },
        clipboard_paste: CapabilityState::Available,
        clipboard_revision_guard: CapabilityState::Available,
    }
}

fn config(mode: InjectionMode, threshold: usize) -> ProductConfig {
    ProductConfig {
        mode,
        auto_clipboard_threshold: AutoClipboardThreshold::new(threshold).expect("test threshold"),
        ..ProductConfig::default()
    }
}

fn code_actions(source: &str) -> Vec<CodeAction> {
    let plan = build_injection_plan(
        SensitiveText::new(source.to_owned()),
        true,
        config(InjectionMode::Code, 256),
        capabilities(),
    )
    .expect("Code mode needs the keyboard code capabilities");
    let InjectionPlan::Code(plan) = plan else {
        panic!("Code mode must produce a Code plan");
    };
    plan.actions().to_vec()
}

fn count(actions: &[CodeAction], wanted: CodeAction) -> usize {
    actions.iter().filter(|action| **action == wanted).count()
}

#[test]
fn explicit_modes_never_fall_back() {
    let unavailable_clipboard =
        ProductCapabilities { clipboard_paste: CapabilityState::Unavailable, ..capabilities() };
    assert!(matches!(
        build_injection_plan(
            SensitiveText::new("hello".to_owned()),
            true,
            config(InjectionMode::Clipboard, 8),
            unavailable_clipboard,
        ),
        Err(ProductPlanError::ClipboardCapabilityUnavailable)
    ));
    let unavailable_keyboard = ProductCapabilities {
        keyboard: PlanCapabilities {
            unicode_text: CapabilityState::Unavailable,
            ..capabilities().keyboard
        },
        ..capabilities()
    };
    assert!(matches!(
        build_injection_plan(
            SensitiveText::new("hello".to_owned()),
            true,
            config(InjectionMode::Keyboard, 8),
            unavailable_keyboard,
        ),
        Err(ProductPlanError::Keyboard(_))
    ));
}

#[test]
fn code_mode_uses_keyboard_code_actions_for_indentation_and_pairs() {
    let plan = build_injection_plan(
        SensitiveText::new("if (items[0] == '{') {\n  \treturn {};\n}".to_owned()),
        true,
        config(InjectionMode::Code, 256),
        capabilities(),
    )
    .expect("Code mode needs the keyboard code capabilities");
    assert_eq!(plan.backend(), InjectionBackend::Code);
    let InjectionPlan::Code(plan) = plan else {
        panic!("Code mode must produce a Code plan");
    };
    assert_eq!(count(plan.actions(), CodeAction::CursorRight), 5);
    assert_eq!(count(plan.actions(), CodeAction::CursorRightToLineEnd), 1);
    assert_eq!(count(plan.actions(), CodeAction::Atom(TextAtom::Tab)), 0);
}

#[test]
fn code_mode_consumes_string_brackets_before_quote_and_paren_boundaries() {
    let actions = code_actions(r#"if (value[0] == "{") {"#);
    let first_quote = actions
        .iter()
        .position(|action| *action == CodeAction::Atom(TextAtom::Scalar('"')))
        .expect("string opener");
    assert!(
        actions[first_quote..first_quote.saturating_add(7)]
            == [
                CodeAction::Atom(TextAtom::Scalar('"')),
                CodeAction::Atom(TextAtom::Scalar('{')),
                CodeAction::CursorRight,
                CodeAction::CursorRight,
                CodeAction::CursorRight,
                CodeAction::Atom(TextAtom::Scalar(' ')),
                CodeAction::Atom(TextAtom::Scalar('{')),
            ]
    );
}

#[test]
fn code_mode_navigates_to_line_leading_generated_closers() {
    let actions = code_actions(
        "fn main() {\nlet value = {\"x\": [1, 2]};\nif (value[0] == \"{\") {\nprintln!(\"value = {}\", value);\n}\n}\nNEXT",
    );
    assert_eq!(count(&actions, CodeAction::CursorRightToLineEnd), 2);
    assert_eq!(count(&actions, CodeAction::Atom(TextAtom::LineBreak)), 4);
    assert!(actions.last() == Some(&CodeAction::Atom(TextAtom::Scalar('T'))));
}

#[test]
fn code_mode_keeps_first_line_break_for_an_empty_multiline_pair() {
    let actions = code_actions("fn main() {\n}\nNEXT");
    let navigation = actions
        .iter()
        .position(|action| *action == CodeAction::CursorRightToLineEnd)
        .expect("line closer navigation");
    assert!(actions.get(navigation.saturating_sub(1)) == Some(&CodeAction::Atom(TextAtom::LineBreak)));
    assert!(actions.get(navigation.saturating_add(1)) == Some(&CodeAction::Atom(TextAtom::LineBreak)));
}

#[test]
fn code_mode_consumes_grouped_closers_on_one_generated_line() {
    let actions = code_actions("call({\nvalue();\n});\nNEXT");
    assert_eq!(count(&actions, CodeAction::CursorRightToLineEnd), 1);
    assert_eq!(count(&actions, CodeAction::CursorRight), 1);
}

#[test]
fn code_mode_types_triple_quote_delimiters_explicitly() {
    for source in [
        "const doc = \"\"\"hello\"\"\";",
        "const doc = \"\"\"it's fine\"\"\";",
        "const doc = '''hello''';",
        "const doc = '''it's fine''';",
    ] {
        let actions = code_actions(source);
        let expected: Vec<CodeAction> =
            source.chars().map(|value| CodeAction::Atom(TextAtom::Scalar(value))).collect();
        assert!(actions == expected);
    }
}

#[test]
fn code_mode_keeps_triple_quoted_body_indentation() {
    let source = "const doc = \"\"\"\n  body\n\"\"\";";
    let actions = code_actions(source);
    let expected: Vec<CodeAction> = source
        .chars()
        .map(|value| match value {
            '\n' => CodeAction::Atom(TextAtom::LineBreak),
            '\t' => CodeAction::Atom(TextAtom::Tab),
            value => CodeAction::Atom(TextAtom::Scalar(value)),
        })
        .collect();
    assert!(actions == expected);
}

#[test]
fn code_mode_keeps_markdown_fences_literal_and_parses_code_inside() {
    let actions = code_actions("```cpp\nif (x) {\n    return;\n}\n```");
    assert_eq!(count(&actions, CodeAction::Atom(TextAtom::Scalar('`'))), 6);
    assert_eq!(count(&actions, CodeAction::CursorRight), 1);
    assert_eq!(count(&actions, CodeAction::CursorRightToLineEnd), 1);
}

#[test]
fn code_mode_does_not_require_clipboard_paste_or_revision() {
    let keyboard_only = ProductCapabilities {
        clipboard_paste: CapabilityState::Unavailable,
        clipboard_revision_guard: CapabilityState::Unavailable,
        ..capabilities()
    };
    let plan = build_injection_plan(
        SensitiveText::new("fn main() {}".to_owned()),
        false,
        config(InjectionMode::Code, 256),
        keyboard_only,
    )
    .expect("Code mode is keyboard-based");
    assert!(matches!(plan, InjectionPlan::Code(_)));
}

#[test]
fn code_mode_requires_cursor_right_capability() {
    let no_cursor_right = ProductCapabilities {
        keyboard: PlanCapabilities {
            cursor_right: CapabilityState::Unavailable,
            ..capabilities().keyboard
        },
        ..capabilities()
    };
    assert!(matches!(
        build_injection_plan(
            SensitiveText::new("fn main() {}".to_owned()),
            true,
            config(InjectionMode::Code, 256),
            no_cursor_right,
        ),
        Err(ProductPlanError::Keyboard(PlanError::CapabilityUnavailable(
            CapabilityRequirement::CursorRight
        )))
    ));
}

#[test]
fn code_mode_keeps_comment_and_string_delimiters_literal() {
    let actions = code_actions("// [not a pair]\n/* { not a pair } */\nlet value = \"[{}]\";\n");
    assert_eq!(count(&actions, CodeAction::CursorRight), 3);
}

#[test]
fn auto_uses_keyboard_below_threshold_and_clipboard_at_threshold() {
    let short = build_injection_plan(
        SensitiveText::new("short".to_owned()),
        true,
        config(InjectionMode::Auto, 8),
        capabilities(),
    )
    .expect("short keyboard plan");
    assert_eq!(short.backend(), InjectionBackend::Keyboard);
    let long = build_injection_plan(
        SensitiveText::new("12345678".to_owned()),
        true,
        config(InjectionMode::Auto, 8),
        capabilities(),
    )
    .expect("threshold clipboard plan");
    assert_eq!(long.backend(), InjectionBackend::Clipboard);
}

#[test]
fn auto_uses_clipboard_when_keyboard_text_is_ineligible() {
    let plan = build_injection_plan(
        SensitiveText::new("a\u{0007}b".to_owned()),
        true,
        config(InjectionMode::Auto, 100),
        capabilities(),
    )
    .expect("clipboard can deliver text without emitting the control as a key");
    assert_eq!(plan.backend(), InjectionBackend::Clipboard);
}

#[test]
fn auto_prefers_revision_guarded_clipboard_for_short_unicode_text() {
    for text in [
        "你好，世界",
        "繁體中文測試",
        "こんにちは世界",
        "안녕하세요",
        "中文与 ASCII 123 混合",
        "😀👍",
        "e\u{0301}",
    ] {
        let plan = build_injection_plan(
            SensitiveText::new(text.to_owned()),
            true,
            config(InjectionMode::Auto, 256),
            capabilities(),
        )
        .expect("short Unicode text should use the guarded paste path");
        assert_eq!(plan.backend(), InjectionBackend::Clipboard, "{text:?}");
    }
}

#[test]
fn auto_can_use_unicode_keyboard_only_when_clipboard_guard_is_unavailable() {
    let capabilities = ProductCapabilities {
        clipboard_paste: CapabilityState::Unavailable,
        clipboard_revision_guard: CapabilityState::Unavailable,
        ..capabilities()
    };
    let plan = build_injection_plan(
        SensitiveText::new("你好".to_owned()),
        false,
        config(InjectionMode::Auto, 256),
        capabilities,
    )
    .expect("Auto retains the Unicode keyboard fallback when paste is unavailable");
    assert_eq!(plan.backend(), InjectionBackend::Keyboard);
}

#[test]
fn clipboard_requires_revision_evidence() {
    assert!(matches!(
        build_injection_plan(
            SensitiveText::new("hello".to_owned()),
            false,
            config(InjectionMode::Clipboard, 8),
            capabilities(),
        ),
        Err(ProductPlanError::ClipboardRevisionUnavailable)
    ));
}

#[test]
fn product_plan_debug_is_content_free() {
    let marker = "PRODUCT_PLAN_PRIVATE_SENTINEL";
    let plan = build_injection_plan(
        SensitiveText::new(marker.to_owned()),
        true,
        config(InjectionMode::Clipboard, 8),
        capabilities(),
    )
    .expect("clipboard plan");
    assert!(!plan.debug_text().contains(marker));
    assert!(matches!(plan, InjectionPlan::Clipboard(_)));
    let code = build_injection_plan(
        SensitiveText::new(marker.to_owned()),
        false,
        config(InjectionMode::Code, 256),
        capabilities(),
    )
    .expect("code plan");
    assert!(!code.debug_text().contains(marker));
    assert!(matches!(code, InjectionPlan::Code(_)));
}

#[test]
fn threshold_must_be_non_zero() {
    assert!(AutoClipboardThreshold::new(0).is_err());
    assert!(ProductConfig::keyboard_only(P1Config::default()).is_ok());
}

#[test]
fn disabled_product_refuses_every_plan() {
    let disabled = ProductConfig { enabled: false, ..config(InjectionMode::Auto, 8) };
    assert!(matches!(
        build_injection_plan(SensitiveText::new("hello".to_owned()), true, disabled, capabilities()),
        Err(ProductPlanError::Disabled)
    ));
}

// --- editor model for code-mode regressions -------------------------------------

fn actions_for(source: &str) -> Vec<CodeAction> {
    let capabilities = ProductCapabilities {
        keyboard: PlanCapabilities {
            unicode_text: CapabilityState::Available,
            line_break: CapabilityState::Available,
            tab: CapabilityState::Available,
            cursor_right: CapabilityState::Available,
            modifier_observation: CapabilityState::Available,
        },
        clipboard_paste: CapabilityState::Unavailable,
        clipboard_revision_guard: CapabilityState::Unavailable,
    };
    let config = ProductConfig { mode: InjectionMode::Code, ..ProductConfig::default() };
    let plan = build_injection_plan(SensitiveText::new(source.to_owned()), false, config, capabilities)
        .expect("Code mode must plan with keyboard capabilities only");
    assert_eq!(plan.backend(), InjectionBackend::Code);
    let InjectionPlan::Code(plan) = plan else {
        panic!("Code mode must produce a Code plan");
    };
    plan.actions().to_vec()
}

#[derive(Debug, Clone, Copy, PartialEq, Eq)]
enum EditorLexState {
    Normal,
    LineComment,
    BlockComment { previous_star: bool },
    String { delimiter: char, escaped: bool },
}

struct EditorModel {
    text: Vec<char>,
    generated: Vec<bool>,
    caret: usize,
    state: EditorLexState,
    pending_slash: bool,
}

impl EditorModel {
    fn new() -> Self {
        Self {
            text: Vec::new(),
            generated: Vec::new(),
            caret: 0,
            state: EditorLexState::Normal,
            pending_slash: false,
        }
    }

    fn render(actions: &[CodeAction]) -> String {
        let mut editor = Self::new();
        for action in actions {
            editor.apply(*action);
        }
        editor.text.into_iter().collect()
    }

    fn apply(&mut self, action: CodeAction) {
        match action {
            CodeAction::Atom(atom) => self.type_atom(atom),
            CodeAction::CursorRight => self.cursor_right(),
            CodeAction::CursorRightToLineEnd => self.cursor_right_to_line_end(),
        }
    }

    fn type_atom(&mut self, atom: TextAtom) {
        match atom {
            TextAtom::Scalar(value) => self.type_scalar(value),
            TextAtom::LineBreak => self.type_line_break(),
            TextAtom::Tab => self.insert_literal('\t'),
        }
    }

    fn type_scalar(&mut self, value: char) {
        match self.state {
            EditorLexState::Normal => self.type_normal_scalar(value),
            EditorLexState::LineComment => self.insert_literal(value),
            EditorLexState::BlockComment { previous_star } => {
                self.insert_literal(value);
                self.state = if previous_star && value == '/' {
                    EditorLexState::Normal
                } else {
                    EditorLexState::BlockComment { previous_star: value == '*' }
                };
            }
            EditorLexState::String { delimiter, escaped } => {
                self.insert_literal(value);
                self.state = if escaped {
                    EditorLexState::String { delimiter, escaped: false }
                } else if value == '\\' {
                    EditorLexState::String { delimiter, escaped: true }
                } else {
                    EditorLexState::String { delimiter, escaped: false }
                };
            }
        }
    }

    fn type_normal_scalar(&mut self, value: char) {
        if self.pending_slash {
            self.pending_slash = false;
            if value == '/' {
                self.insert_literal(value);
                self.state = EditorLexState::LineComment;
                return;
            }
            if value == '*' {
                self.insert_literal(value);
                self.state = EditorLexState::BlockComment { previous_star: false };
                return;
            }
        }
        if let Some(closer) = generated_pair(value) {
            self.insert_pair(value, closer);
            if matches!(value, '\'' | '"') {
                self.state = EditorLexState::String { delimiter: value, escaped: false };
            }
            return;
        }
        self.insert_literal(value);
        self.pending_slash = value == '/';
    }

    fn type_line_break(&mut self) {
        let indent = self.current_line_indent();
        let closer_waiting = self
            .text
            .get(self.caret)
            .zip(self.generated.get(self.caret))
            .is_some_and(|(value, generated)| *generated && matches!(value, ')' | ']' | '}'));
        let mut insertion = String::from("\n");
        if closer_waiting {
            insertion.push_str(&" ".repeat(indent + 4));
            insertion.push('\n');
        }
        insertion.push_str(&" ".repeat(indent));
        let original_caret = self.caret;
        self.insert_sequence(original_caret, insertion.chars());
        self.caret = original_caret + 1 + if closer_waiting { indent + 4 } else { indent };
        if self.state == EditorLexState::LineComment {
            self.state = EditorLexState::Normal;
        }
        self.pending_slash = false;
    }

    fn cursor_right(&mut self) {
        let skipped = *self.text.get(self.caret).expect("CursorRight must have an editor-generated closer");
        assert!(self.generated[self.caret], "CursorRight must not skip source text: {skipped:?}");
        self.caret += 1;
        if let EditorLexState::String { delimiter, .. } = self.state {
            assert_eq!(skipped, delimiter, "string navigation must skip its quote");
            self.state = EditorLexState::Normal;
        }
        self.pending_slash = false;
    }

    fn cursor_right_to_line_end(&mut self) {
        assert_eq!(
            self.text.get(self.caret),
            Some(&'\n'),
            "line-closer navigation must start at an existing line boundary"
        );
        self.caret += 1;
        let mut saw_generated_closer = false;
        while self.caret < self.text.len() && self.text[self.caret] != '\n' {
            saw_generated_closer |= self.generated[self.caret];
            self.caret += 1;
        }
        assert!(saw_generated_closer, "line-end navigation must cross an editor-generated closer");
        if self.state == EditorLexState::LineComment {
            self.state = EditorLexState::Normal;
        }
        self.pending_slash = false;
    }

    fn current_line_indent(&self) -> usize {
        let start = self.text[..self.caret]
            .iter()
            .rposition(|value| *value == '\n')
            .map_or(0, |index| index + 1);
        self.text[start..self.caret]
            .iter()
            .take_while(|value| matches!(value, ' ' | '\t'))
            .map(|value| if *value == '\t' { 4 } else { 1 })
            .sum()
    }

    fn insert_pair(&mut self, opener: char, closer: char) {
        self.text.insert(self.caret, opener);
        self.generated.insert(self.caret, false);
        self.caret += 1;
        self.text.insert(self.caret, closer);
        self.generated.insert(self.caret, true);
    }

    fn insert_literal(&mut self, value: char) {
        self.text.insert(self.caret, value);
        self.generated.insert(self.caret, false);
        self.caret += 1;
    }

    fn insert_sequence(&mut self, index: usize, values: impl IntoIterator<Item = char>) {
        for (offset, value) in values.into_iter().enumerate() {
            self.text.insert(index + offset, value);
            self.generated.insert(index + offset, false);
        }
    }
}

fn generated_pair(value: char) -> Option<char> {
    match value {
        '(' => Some(')'),
        '{' => Some('}'),
        '[' => Some(']'),
        '"' => Some('"'),
        '\'' => Some('\''),
        _ => None,
    }
}

#[test]
fn pair_navigation_is_limited_to_the_five_documented_pair_families() {
    let actions = actions_for("(){}[]\"\"''");
    assert_eq!(count(&actions, CodeAction::CursorRight), 5);
    let literal = "let marker = `code`; <value>";
    assert!(actions_for(literal).iter().all(|action| matches!(action, CodeAction::Atom(_))));
}

#[test]
fn triple_quote_boundaries_and_bodies_never_use_pair_navigation() {
    for source in ["const doc = \"\"\"hello {[]}\"\"\";", "const doc = '''hello {[]}''';"] {
        assert!(actions_for(source).iter().all(|action| matches!(action, CodeAction::Atom(_))));
    }
}

#[test]
fn long_code_fixture_reaches_tail_after_every_generated_closing_line() {
    let mut source = String::new();
    let mut expected = String::new();
    for index in 0..64 {
        source.push_str(&format!(
            "int function_{index}(int value) {{\nif ((value + {index}) > 0) {{\nreturn value;\n// 中文注释 {index}\n}}\nreturn -1;\n}}\n"
        ));
        expected.push_str(&format!(
            "int function_{index}(int value) {{\n    if ((value + {index}) > 0) {{\n        return value;\n        // 中文注释 {index}\n    }}\n    return -1;\n}}\n"
        ));
    }
    source.push_str("NEXT");
    expected.push_str("NEXT");
    let actions = actions_for(&source);
    assert_eq!(count(&actions, CodeAction::CursorRightToLineEnd), 64 * 2);
    assert!(actions.last() == Some(&CodeAction::Atom(TextAtom::Scalar('T'))));
    assert_eq!(EditorModel::render(&actions), expected);
}

#[test]
fn line_endings_do_not_change_code_plans() {
    let lf = "fn main() {\nif (x) {\nreturn;\n}\n}\nNEXT";
    assert!(actions_for(lf) == actions_for(&lf.replace('\n', "\r\n")));
}

