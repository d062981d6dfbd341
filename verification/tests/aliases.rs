use juniper_codegen::aliases::{error_message, factory, Aliases, RuleError, SourcePosition};

fn pos(index: usize, line: usize, col: usize) -> SourcePosition {
    SourcePosition { index, line, col }
}

/// Replays one operation's fields through the rule, as the query-document
/// walker would: `None` for a plain field, `Some((alias, position))` for an
/// aliased one.  Returns every violation the rule reports.
fn walk_operation(rule: &mut Aliases, fields: &[Option<(&str, SourcePosition)>]) -> Vec<RuleError> {
    let mut errors = Vec::new();
    rule.enter_operation_definition();
    for f in fields {
        let event = f.as_ref().map(|(a, p)| (a.to_string(), *p));
        if let Some(err) = rule.enter_field(event.as_ref()) {
            errors.push(err);
        }
    }
    errors
}

#[test]
fn single_alias_allowed() {
    // mutation CreateLiquidToken {
    //   liquidApplication: createLiquidSdkApplication { token applicantId }
    // }
    let mut rule = factory();
    let errors = walk_operation(
        &mut rule,
        &[Some(("liquidApplication", pos(43, 2, 14))), None, None],
    );
    assert!(errors.is_empty());

    // mutation UpdateLiquidToken {
    //   liquidApplication: createLiquidSdkUpdateApplication { token applicantId }
    // }
    let mut rule = factory();
    let errors = walk_operation(
        &mut rule,
        &[Some(("liquidApplication", pos(43, 2, 14))), None, None],
    );
    assert!(errors.is_empty());

    // query Hero with three aliased hero fields: at the allowed maximum.
    let mut rule = factory();
    let errors = walk_operation(
        &mut rule,
        &[
            Some(("empireHero", pos(24, 1, 12))),
            None,
            Some(("jediHero", pos(95, 4, 12))),
            None,
            Some(("republicHero", pos(160, 7, 12))),
            None,
        ],
    );
    assert!(errors.is_empty());
}

#[test]
fn multiple_field_aliases_not_allowed() {
    // query MyQuery {
    //     myField1: my_field,
    //     myField2: my_field,
    //     myField3: my_field,
    //     myField4: my_field,
    //     myField5: my_field
    // }
    let mut rule = factory();
    let errors = walk_operation(
        &mut rule,
        &[
            Some(("myField1", pos(37, 2, 12))),
            Some(("myField2", pos(69, 3, 12))),
            Some(("myField3", pos(101, 4, 12))),
            Some(("myField4", pos(133, 5, 12))),
            Some(("myField5", pos(165, 6, 12))),
        ],
    );
    assert_eq!(errors.len(), 2);
    assert_eq!(errors[0].message, error_message("myField4"));
    assert_eq!(errors[0].positions, vec![pos(133, 5, 12)]);
    assert_eq!(errors[1].message, error_message("myField5"));
    assert_eq!(errors[1].positions, vec![pos(165, 6, 12)]);
}

#[test]
fn multiple_query_aliases_not_allowed() {
    // query Hero with five aliased hero fields: two over the allowed maximum.
    let mut rule = factory();
    let errors = walk_operation(
        &mut rule,
        &[
            Some(("empireHero", pos(24, 1, 12))),
            None,
            Some(("jediHero", pos(95, 4, 12))),
            None,
            Some(("republicHero", pos(160, 7, 12))),
            None,
            Some(("republicH3ro", pos(268, 8, 12))),
            None,
            Some(("republicH4ro", pos(342, 8, 12))),
            None,
        ],
    );
    assert_eq!(errors.len(), 2);
    assert_eq!(errors[0].message, error_message("republicH3ro"));
    assert_eq!(errors[0].positions, vec![pos(268, 8, 12)]);
    assert_eq!(errors[1].message, error_message("republicH4ro"));
    assert_eq!(errors[1].positions, vec![pos(342, 8, 12)]);
}

#[test]
fn no_aliases() {
    let _document = "\n            query MyQuery {\n                my_field\n            }\n            ";
    let mut rule = factory();
    let errors = walk_operation(&mut rule, &[None]);
    assert!(errors.is_empty());
}

#[test]
fn factory_starts_fresh() {
    let rule = factory();
    assert_eq!(rule.alias_count, 0);
    assert_eq!(rule.max_allowed, 3);
}

#[test]
fn error_message_wording() {
    assert_eq!(
        error_message("someAlias"),
        "Illegal number of aliases, someAlias is not allowed"
    );
}

#[test]
fn count_resets_between_operations() {
    let mut rule = factory();
    let errors = walk_operation(
        &mut rule,
        &[
            Some(("a1", pos(0, 0, 0))),
            Some(("a2", pos(1, 0, 1))),
            Some(("a3", pos(2, 0, 2))),
        ],
    );
    assert!(errors.is_empty());
    // A fresh operation starts counting from zero again.
    let errors = walk_operation(
        &mut rule,
        &[
            Some(("b1", pos(3, 1, 0))),
            Some(("b2", pos(4, 1, 1))),
            Some(("b3", pos(5, 1, 2))),
            Some(("b4", pos(6, 1, 3))),
        ],
    );
    assert_eq!(errors.len(), 1);
    assert_eq!(errors[0].message, error_message("b4"));
}

#[test]
fn unaliased_fields_never_count() {
    // An unaliased field changes nothing, even with the counter at its
    // ceiling.
    let mut rule = factory();
    rule.alias_count = 255;
    assert!(rule.enter_field(None).is_none());
    assert_eq!(rule.alias_count, 255);
}
