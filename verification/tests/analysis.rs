use schema_usage::collect::collect_components;
use schema_usage::document::Anomaly;
use schema_usage::document::AnomalySite;
use schema_usage::document::Components;
use schema_usage::document::Document;
use schema_usage::document::Header;
use schema_usage::document::Link;
use schema_usage::document::MediaType;
use schema_usage::document::Namespace;
use schema_usage::document::Operation;
use schema_usage::document::Parameter;
use schema_usage::document::ParameterFormat;
use schema_usage::document::PathItem;
use schema_usage::document::Response;
use schema_usage::document::ResponseKey;
use schema_usage::document::Responses;
use schema_usage::report::analyze;
use schema_usage::schema::RefOr;
use schema_usage::schema::ScalarKind;
use schema_usage::schema::SchemaNode;
use schema_usage::walk::walk_paths;

fn empty_components() -> Components {
    Components { schemas: vec![], parameters: vec![], responses: vec![] }
}

fn no_responses() -> Responses {
    Responses { default: None, responses: vec![] }
}

fn schema_ref(name: &str) -> RefOr<SchemaNode> {
    RefOr::Reference { reference: format!("#/components/schemas/{}", name) }
}

fn param_with_schema_ref(reference: &str) -> RefOr<Parameter> {
    RefOr::Item(Parameter {
        name: "p".to_string(),
        format: ParameterFormat::Schema(RefOr::Reference { reference: reference.to_string() }),
    })
}

fn one_path_with_params(params: Vec<RefOr<Parameter>>) -> Vec<(String, RefOr<PathItem>)> {
    vec![(
        "/things".to_string(),
        RefOr::Item(PathItem {
            operations: vec![Operation { parameters: params, responses: no_responses() }],
        }),
    )]
}

#[test]
fn empty_document_yields_empty_report() {
    let doc = Document { components: None, paths: vec![] };
    let report = analyze(&doc);
    assert!(report.unused_schemas.is_empty());
    assert!(report.unused_parameters.is_empty());
    assert!(report.unused_responses.is_empty());
    assert!(report.anomalies.is_empty());
}

#[test]
fn classifier_buckets_and_unused_reporting_work_together() {
    // components.schemas = {A: object, B: string with a two-value enumeration,
    // C: boolean}; one operation references A only.
    let mut components = empty_components();
    components.schemas = vec![
        ("A".to_string(), RefOr::Item(SchemaNode::Object)),
        (
            "B".to_string(),
            RefOr::Item(SchemaNode::Scalar { kind: ScalarKind::Str, enumeration_len: 2 }),
        ),
        ("C".to_string(), RefOr::Item(SchemaNode::Boolean)),
    ];
    let classification = collect_components(&components);
    assert_eq!(classification.schemas.complex, vec!["A".to_string(), "B".to_string()]);
    assert_eq!(classification.schemas.simple, vec!["C".to_string()]);

    let doc = Document {
        components: Some(components),
        paths: one_path_with_params(vec![param_with_schema_ref("#/components/schemas/A")]),
    };
    let report = analyze(&doc);
    assert_eq!(report.unused_schemas, vec!["B".to_string(), "C".to_string()]);
    assert!(report.unused_parameters.is_empty());
    assert!(report.unused_responses.is_empty());
    assert!(report.anomalies.is_empty());
}

#[test]
fn parameter_with_array_of_objects_is_complex() {
    let mut components = empty_components();
    components.parameters = vec![(
        "Filter".to_string(),
        RefOr::Item(Parameter {
            name: "filter".to_string(),
            format: ParameterFormat::Schema(RefOr::Item(SchemaNode::Array {
                items: Some(Box::new(RefOr::Item(SchemaNode::Object))),
            })),
        }),
    )];
    let classification = collect_components(&components);
    assert_eq!(classification.parameters.complex, vec!["Filter".to_string()]);
    assert!(classification.parameters.simple.is_empty());
}

#[test]
fn parameter_with_bare_array_is_simple() {
    let mut components = empty_components();
    components.parameters = vec![(
        "Ids".to_string(),
        RefOr::Item(Parameter {
            name: "ids".to_string(),
            format: ParameterFormat::Schema(RefOr::Item(SchemaNode::Array { items: None })),
        }),
    )];
    let classification = collect_components(&components);
    assert_eq!(classification.parameters.simple, vec!["Ids".to_string()]);
    assert!(classification.parameters.complex.is_empty());
}

#[test]
fn referenced_component_is_never_reported_even_when_referenced_twice() {
    let mut components = empty_components();
    components.schemas = vec![("A".to_string(), RefOr::Item(SchemaNode::Object))];
    let doc = Document {
        components: Some(components),
        paths: one_path_with_params(vec![
            param_with_schema_ref("#/components/schemas/A"),
            param_with_schema_ref("#/components/schemas/A"),
        ]),
    };
    let report = analyze(&doc);
    assert!(report.unused_schemas.is_empty());
}

#[test]
fn unreferenced_component_is_reported_exactly_once() {
    let mut components = empty_components();
    components.schemas = vec![("Lonely".to_string(), RefOr::Item(SchemaNode::Boolean))];
    let doc = Document { components: Some(components), paths: vec![] };
    let report = analyze(&doc);
    assert_eq!(report.unused_schemas, vec!["Lonely".to_string()]);
}

#[test]
fn reference_entry_at_namespace_top_level_is_an_anomaly_not_a_bucket() {
    let mut components = empty_components();
    components.schemas = vec![("Alias".to_string(), schema_ref("Widget"))];
    let classification = collect_components(&components);
    assert!(classification.schemas.simple.is_empty());
    assert!(classification.schemas.complex.is_empty());
    assert_eq!(classification.anomalies.len(), 1);
    let anomaly: &Anomaly = &classification.anomalies[0];
    assert!(matches!(anomaly.namespace, Namespace::Schemas));
    assert!(matches!(anomaly.site, AnomalySite::TopLevel));
    assert_eq!(anomaly.key, "Alias");
    assert_eq!(anomaly.reference, "#/components/schemas/Widget");
}

#[test]
fn response_sites_get_derived_keys() {
    let mut components = empty_components();
    components.responses = vec![(
        "Ok".to_string(),
        RefOr::Item(Response {
            headers: vec![(
                "X-Count".to_string(),
                RefOr::Item(Header {
                    format: ParameterFormat::Schema(RefOr::Item(SchemaNode::Scalar {
                        kind: ScalarKind::Integer,
                        enumeration_len: 0,
                    })),
                }),
            )],
            content: vec![(
                "application/json".to_string(),
                MediaType { schema: Some(RefOr::Item(SchemaNode::Object)) },
            )],
            links: vec![],
        }),
    )];
    let classification = collect_components(&components);
    assert_eq!(classification.responses.simple, vec!["Ok/header/X-Count".to_string()]);
    assert_eq!(classification.responses.complex, vec!["Ok/content/application/json".to_string()]);
}

#[test]
fn response_derived_keys_never_match_bare_response_references() {
    // The walker records the bare response name, while the collector keys
    // response schemas by site: an exact-match comparison reports them.
    let mut components = empty_components();
    components.responses = vec![(
        "Ok".to_string(),
        RefOr::Item(Response {
            headers: vec![],
            content: vec![(
                "application/json".to_string(),
                MediaType { schema: Some(RefOr::Item(SchemaNode::Object)) },
            )],
            links: vec![],
        }),
    )];
    let doc = Document {
        components: Some(components),
        paths: vec![(
            "/things".to_string(),
            RefOr::Item(PathItem {
                operations: vec![Operation {
                    parameters: vec![],
                    responses: Responses {
                        default: None,
                        responses: vec![(
                            ResponseKey::Code(200),
                            RefOr::Reference {
                                reference: "#/components/responses/Ok".to_string(),
                            },
                        )],
                    },
                }],
            }),
        )],
    };
    let report = analyze(&doc);
    assert_eq!(report.unused_responses, vec!["Ok/content/application/json".to_string()]);
}

#[test]
fn default_response_reference_is_recorded() {
    let paths = vec![(
        "/things".to_string(),
        RefOr::Item(PathItem {
            operations: vec![Operation {
                parameters: vec![],
                responses: Responses {
                    default: Some(RefOr::Reference {
                        reference: "#/components/responses/Fallback".to_string(),
                    }),
                    responses: vec![],
                },
            }],
        }),
    )];
    let tallies = walk_paths(&paths);
    assert_eq!(tallies.responses, vec!["Fallback".to_string()]);
    assert!(tallies.schemas.is_empty());
    assert!(tallies.parameters.is_empty());
}

#[test]
fn each_namespace_gets_its_own_tally() {
    let paths = vec![(
        "/things".to_string(),
        RefOr::Item(PathItem {
            operations: vec![Operation {
                parameters: vec![
                    RefOr::Reference {
                        reference: "#/components/parameters/Limit".to_string(),
                    },
                    param_with_schema_ref("#/components/schemas/Widget"),
                ],
                responses: Responses {
                    default: None,
                    responses: vec![(
                        ResponseKey::Code(200),
                        RefOr::Item(Response {
                            headers: vec![],
                            content: vec![(
                                "application/json".to_string(),
                                MediaType {
                                    schema: Some(RefOr::Reference {
                                        reference: "#/components/schemas/Widget".to_string(),
                                    }),
                                },
                            )],
                            links: vec![],
                        }),
                    )],
                },
            }],
        }),
    )];
    let tallies = walk_paths(&paths);
    assert_eq!(tallies.parameters, vec!["Limit".to_string()]);
    assert_eq!(tallies.schemas, vec!["Widget".to_string(), "Widget".to_string()]);
    assert!(tallies.responses.is_empty());
}

#[test]
fn unrecognized_kinds_are_ignored() {
    let paths = one_path_with_params(vec![param_with_schema_ref("#/definitions/Widget")]);
    let tallies = walk_paths(&paths);
    assert!(tallies.schemas.is_empty());
    assert!(tallies.parameters.is_empty());
    assert!(tallies.responses.is_empty());
}

#[test]
fn parameter_content_mapping_classifies_every_media_type() {
    let mut components = empty_components();
    components.parameters = vec![(
        "Payload".to_string(),
        RefOr::Item(Parameter {
            name: "payload".to_string(),
            format: ParameterFormat::Content(vec![
                (
                    "application/json".to_string(),
                    MediaType { schema: Some(RefOr::Item(SchemaNode::Object)) },
                ),
                (
                    "text/plain".to_string(),
                    MediaType {
                        schema: Some(RefOr::Item(SchemaNode::Scalar {
                            kind: ScalarKind::Str,
                            enumeration_len: 0,
                        })),
                    },
                ),
            ]),
        }),
    )];
    let classification = collect_components(&components);
    assert_eq!(classification.parameters.complex, vec!["Payload".to_string()]);
    assert_eq!(classification.parameters.simple, vec!["Payload".to_string()]);
}

#[test]
fn link_reference_is_noted_as_an_anomaly() {
    let mut components = empty_components();
    components.responses = vec![(
        "Ok".to_string(),
        RefOr::Item(Response {
            headers: vec![],
            content: vec![],
            links: vec![(
                "next".to_string(),
                RefOr::Reference { reference: "#/components/links/Next".to_string() },
            )],
        }),
    )];
    let classification = collect_components(&components);
    assert_eq!(classification.anomalies.len(), 1);
    assert!(matches!(classification.anomalies[0].site, AnomalySite::LinkEntry));
    assert!(matches!(classification.anomalies[0].namespace, Namespace::Responses));
    let inert = Link {};
    let _ = inert;
}

#[test]
fn referenced_path_items_are_skipped() {
    let paths = vec![(
        "/things".to_string(),
        RefOr::<PathItem>::Reference { reference: "#/components/pathItems/Things".to_string() },
    )];
    let tallies = walk_paths(&paths);
    assert!(tallies.schemas.is_empty());
    assert!(tallies.parameters.is_empty());
    assert!(tallies.responses.is_empty());
}

#[test]
fn parameter_schema_reference_at_component_level_is_an_anomaly() {
    let mut components = empty_components();
    components.parameters = vec![(
        "Limit".to_string(),
        RefOr::Item(Parameter {
            name: "limit".to_string(),
            format: ParameterFormat::Schema(RefOr::Reference {
                reference: "#/components/schemas/Limit".to_string(),
            }),
        }),
    )];
    let classification = collect_components(&components);
    assert!(classification.parameters.simple.is_empty());
    assert!(classification.parameters.complex.is_empty());
    assert_eq!(classification.anomalies.len(), 1);
    assert!(matches!(classification.anomalies[0].namespace, Namespace::Parameters));
    assert!(matches!(classification.anomalies[0].site, AnomalySite::ParameterSchema));
    assert_eq!(classification.anomalies[0].key, "Limit");
}

#[test]
fn response_reference_sites_are_each_noted() {
    let mut components = empty_components();
    components.parameters = vec![(
        "Alias".to_string(),
        RefOr::Reference { reference: "#/components/parameters/Other".to_string() },
    )];
    components.responses = vec![
        (
            "Alias".to_string(),
            RefOr::Reference { reference: "#/components/responses/Other".to_string() },
        ),
        (
            "Ok".to_string(),
            RefOr::Item(Response {
                headers: vec![
                    (
                        "X-Linked".to_string(),
                        RefOr::Reference {
                            reference: "#/components/headers/RateLimit".to_string(),
                        },
                    ),
                    (
                        "X-Inline".to_string(),
                        RefOr::Item(Header {
                            format: ParameterFormat::Schema(RefOr::Reference {
                                reference: "#/components/schemas/Count".to_string(),
                            }),
                        }),
                    ),
                ],
                content: vec![(
                    "application/json".to_string(),
                    MediaType {
                        schema: Some(RefOr::Reference {
                            reference: "#/components/schemas/Widget".to_string(),
                        }),
                    },
                )],
                links: vec![],
            }),
        ),
    ];
    let classification = collect_components(&components);
    assert!(classification.responses.simple.is_empty());
    assert!(classification.responses.complex.is_empty());
    let sites: Vec<&Anomaly> = classification.anomalies.iter().collect();
    assert_eq!(sites.len(), 5);
    assert!(matches!(sites[0].namespace, Namespace::Parameters));
    assert!(matches!(sites[0].site, AnomalySite::TopLevel));
    assert!(matches!(sites[1].namespace, Namespace::Responses));
    assert!(matches!(sites[1].site, AnomalySite::TopLevel));
    assert!(matches!(sites[2].site, AnomalySite::HeaderEntry));
    assert!(matches!(sites[3].site, AnomalySite::HeaderSchema));
    assert!(matches!(sites[4].site, AnomalySite::ContentBody));
    assert_eq!(sites[3].reference, "#/components/schemas/Count");
}

#[test]
fn header_content_mapping_is_classified_under_the_header_key() {
    let mut components = empty_components();
    components.responses = vec![(
        "Ok".to_string(),
        RefOr::Item(Response {
            headers: vec![(
                "X-Meta".to_string(),
                RefOr::Item(Header {
                    format: ParameterFormat::Content(vec![
                        (
                            "application/json".to_string(),
                            MediaType { schema: Some(RefOr::Item(SchemaNode::Object)) },
                        ),
                        (
                            "text/plain".to_string(),
                            MediaType {
                                schema: Some(RefOr::Reference {
                                    reference: "#/components/schemas/Meta".to_string(),
                                }),
                            },
                        ),
                    ]),
                }),
            )],
            content: vec![],
            links: vec![],
        }),
    )];
    let classification = collect_components(&components);
    assert_eq!(classification.responses.complex, vec!["Ok/header/X-Meta".to_string()]);
    assert!(classification.responses.simple.is_empty());
    assert_eq!(classification.anomalies.len(), 1);
    assert!(matches!(classification.anomalies[0].site, AnomalySite::HeaderContent));
}

#[test]
fn parameter_content_references_are_recorded_from_paths() {
    let paths = one_path_with_params(vec![RefOr::Item(Parameter {
        name: "payload".to_string(),
        format: ParameterFormat::Content(vec![(
            "application/json".to_string(),
            MediaType {
                schema: Some(RefOr::Reference {
                    reference: "#/components/schemas/Payload".to_string(),
                }),
            },
        )]),
    })]);
    let tallies = walk_paths(&paths);
    assert_eq!(tallies.schemas, vec!["Payload".to_string()]);
}

#[test]
fn inline_parameter_schemas_at_paths_record_nothing() {
    let paths = one_path_with_params(vec![RefOr::Item(Parameter {
        name: "verbose".to_string(),
        format: ParameterFormat::Schema(RefOr::Item(SchemaNode::Boolean)),
    })]);
    let tallies = walk_paths(&paths);
    assert!(tallies.schemas.is_empty());
    assert!(tallies.parameters.is_empty());
    assert!(tallies.responses.is_empty());
}
