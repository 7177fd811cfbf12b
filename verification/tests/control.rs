use gateway_core::dispatch::create_service;
use gateway_core::dispatch::ServiceKind;
use gateway_core::dto::DataRequestDto;
use gateway_core::dto::DataResponseDto;
use gateway_core::dto::MediaResponseDto;
use gateway_core::dto::PeerEventEnumDto;
use gateway_core::dto::PeerResponseDto;
use gateway_core::dto::RedirectDtoParams;
use gateway_core::dto::RequestDto;
use gateway_core::dto::ResponseDto;
use gateway_core::dto::ResponseDtoResult;
use gateway_core::entity::DataConnectionEventEnum;
use gateway_core::entity::DataConnectionId;
use gateway_core::entity::DataConnectionIdWrapper;
use gateway_core::entity::DataConnectionStatus;
use gateway_core::entity::DataId;
use gateway_core::entity::DataIdWrapper;
use gateway_core::entity::DataResponse;
use gateway_core::entity::MediaConnectionId;
use gateway_core::entity::MediaConnectionIdWrapper;
use gateway_core::entity::MediaResponse;
use gateway_core::entity::PeerConnectionEvent;
use gateway_core::entity::PeerEventEnum;
use gateway_core::entity::PeerInfo;
use gateway_core::entity::PeerResponse;
use gateway_core::entity::Response;
use gateway_core::entity::ResponseResult;
use gateway_core::entity::SocketInfo;
use gateway_core::error::DecodeErrorKind;
use gateway_core::error::Error;
use gateway_core::event::EventReceiveImpl;
use gateway_core::event::PeerEventAction;
use gateway_core::json::JsonValue;
use gateway_core::redirect::build_redirect_request;
use gateway_core::redirect::interpret_create_result;
use gateway_core::redirect::interpret_register_result;
use gateway_core::redirect::redirect_request_params;
use gateway_core::redirect::RedirectOutcome;
use gateway_core::topic::topic_name_from;
use gateway_core::topic::TopicRegistry;

fn text(s: &str) -> JsonValue {
    JsonValue::Text(String::from(s))
}

fn obj(fields: Vec<(&str, JsonValue)>) -> JsonValue {
    JsonValue::Object(fields.into_iter().map(|(k, v)| (String::from(k), v)).collect())
}

fn dc_id(s: &str) -> DataConnectionId {
    DataConnectionId::try_create(s).unwrap()
}

fn redirect_request_doc(connection: &str, topic: &str) -> JsonValue {
    obj(vec![
        ("type", text("DATA")),
        ("command", text("REDIRECT")),
        (
            "params",
            obj(vec![
                ("data_connection_id", text(connection)),
                ("destination_topic", text(topic)),
            ]),
        ),
    ])
}

/// Runs the redirect workflow with a scripted backend: the nested
/// create step answers `create_result`, the registration answers
/// `register_result`.
fn run_redirect(
    request: RequestDto,
    create_result: Result<ResponseDtoResult, Error>,
    register_result: Result<ResponseResult, Error>,
    registry: &mut TopicRegistry,
) -> Result<ResponseDtoResult, Error> {
    let params = redirect_request_params(request)?;
    let socket = interpret_create_result(create_result)?;
    let data_id = socket.id.as_ref().unwrap();
    let source_topic_name = topic_name_from(data_id.as_str());
    let forward_port = 20000u16;
    let _register_request = build_redirect_request(&params, data_id, forward_port);
    let outcome = interpret_register_result(
        params,
        source_topic_name,
        socket.ip.clone(),
        socket.port,
        forward_port,
        register_result,
    )?;
    match outcome {
        RedirectOutcome::Completed {
            notification,
            entry,
            response,
        } => {
            // the host is notified first; only then is the entry observable
            assert!(!notification.data_connection_id.is_empty());
            registry.store_topic(entry);
            Ok(response)
        }
        RedirectOutcome::Rejected { response } => Ok(response),
    }
}

fn created_socket(id: &str, ip: &str, port: u16) -> Result<ResponseDtoResult, Error> {
    Ok(ResponseDtoResult::Success(ResponseDto::Data(
        DataResponseDto::Create(SocketInfo {
            id: Some(DataId::try_create(id).unwrap()),
            ip: String::from(ip),
            port,
        }),
    )))
}

#[test]
fn success() {
    let expected = ResponseDtoResult::Success(ResponseDto::Data(DataResponseDto::Redirect(
        DataConnectionIdWrapper {
            data_connection_id: dc_id("dc-4995f372-fb6a-4196-b30a-ce11e5c7f56c"),
        },
    )));

    let request = RequestDto::from_json(&redirect_request_doc(
        "dc-8bdef7a1-65c8-46be-a82e-37d51c776309",
        "destination_topic",
    ))
    .unwrap();

    let create_result = created_socket("da-06cf1d26-0ef0-4b03-aca6-933027d434c2", "127.0.0.1", 10000);
    let register_result = Ok(ResponseResult::Success(Response::Data(
        DataResponse::Redirect(DataConnectionIdWrapper {
            data_connection_id: dc_id("dc-4995f372-fb6a-4196-b30a-ce11e5c7f56c"),
        }),
    )));

    let mut registry = TopicRegistry::new();
    let result = run_redirect(request, create_result, register_result, &mut registry);
    assert_eq!(result.unwrap(), expected);
}

#[test]
fn redirect_happy_path_notifies_and_registers() {
    let request = redirect_request_params(
        RequestDto::from_json(&redirect_request_doc(
            "dc-8bdef7a1-65c8-46be-a82e-37d51c776309",
            "destination_topic",
        ))
        .unwrap(),
    )
    .unwrap();

    let socket = interpret_create_result(created_socket(
        "da-06cf1d26-0ef0-4b03-aca6-933027d434c2",
        "127.0.0.1",
        10000,
    ))
    .unwrap();
    let data_id = socket.id.as_ref().unwrap();
    let source_topic_name = topic_name_from(data_id.as_str());
    let register_result = Ok(ResponseResult::Success(Response::Data(
        DataResponse::Redirect(DataConnectionIdWrapper {
            data_connection_id: dc_id("dc-4995f372-fb6a-4196-b30a-ce11e5c7f56c"),
        }),
    )));
    let outcome = interpret_register_result(
        request,
        source_topic_name,
        socket.ip.clone(),
        socket.port,
        20000,
        register_result,
    )
    .unwrap();

    match outcome {
        RedirectOutcome::Completed {
            notification,
            entry,
            response,
        } => {
            // exactly one notification, carrying the bridge parameters
            assert_eq!(
                notification.data_connection_id,
                "dc-4995f372-fb6a-4196-b30a-ce11e5c7f56c"
            );
            assert_eq!(
                notification.source_parameters.source_topic_name,
                "da_06cf1d26_0ef0_4b03_aca6_933027d434c2"
            );
            assert_eq!(notification.source_parameters.destination_address, "127.0.0.1");
            assert_eq!(notification.source_parameters.destination_port, 10000);
            assert_eq!(notification.destination_parameters.source_port, 20000);
            assert_eq!(
                notification.destination_parameters.destination_topic_name,
                "destination_topic"
            );

            // exactly one registry entry, keyed by the returned connection id
            let mut registry = TopicRegistry::new();
            registry.store_topic(entry);
            let key = dc_id("dc-4995f372-fb6a-4196-b30a-ce11e5c7f56c");
            let stored = registry.find_topic(&key).unwrap();
            assert_eq!(stored.source_port, 10000);
            assert_eq!(stored.destination_topic_name, "destination_topic");
            let other = dc_id("dc-8bdef7a1-65c8-46be-a82e-37d51c776309");
            assert!(registry.find_topic(&other).is_none());

            assert_eq!(
                response,
                ResponseDtoResult::Success(ResponseDto::Data(DataResponseDto::Redirect(
                    DataConnectionIdWrapper {
                        data_connection_id: dc_id("dc-4995f372-fb6a-4196-b30a-ce11e5c7f56c"),
                    }
                )))
            );
        }
        RedirectOutcome::Rejected { .. } => panic!("the redirect should have completed"),
    }
}

#[test]
fn redirect_backend_failure_reports_the_error() {
    let request = RequestDto::from_json(&redirect_request_doc(
        "dc-8bdef7a1-65c8-46be-a82e-37d51c776309",
        "destination_topic",
    ))
    .unwrap();
    let create_result = created_socket("da-06cf1d26-0ef0-4b03-aca6-933027d434c2", "127.0.0.1", 10000);
    let register_result = Ok(ResponseResult::Error(String::from("boom")));

    let mut registry = TopicRegistry::new();
    let result = run_redirect(request, create_result, register_result, &mut registry).unwrap();
    assert_eq!(result, ResponseDtoResult::Error(String::from("boom")));

    // zero registry writes
    let key = dc_id("dc-8bdef7a1-65c8-46be-a82e-37d51c776309");
    assert!(registry.find_topic(&key).is_none());
}

#[test]
fn redirect_rejects_other_commands() {
    let result = redirect_request_params(RequestDto::Data(DataRequestDto::Create));
    assert_eq!(result, Err(Error::Local(String::from("invalid parameters"))));
}

#[test]
fn create_step_failure_aborts_with_a_local_error() {
    let wrong_shape = Ok(ResponseDtoResult::Success(ResponseDto::Data(
        DataResponseDto::Connect(DataConnectionIdWrapper {
            data_connection_id: dc_id("dc-8bdef7a1-65c8-46be-a82e-37d51c776309"),
        }),
    )));
    let result = interpret_create_result(wrong_shape);
    assert_eq!(result, Err(Error::Local(String::from("create data failed"))));
}

#[test]
fn build_redirect_request_uses_loopback_phantom_target() {
    let params = RedirectDtoParams {
        data_connection_id: dc_id("dc-8bdef7a1-65c8-46be-a82e-37d51c776309"),
        destination_topic: String::from("destination_topic"),
    };
    let data_id = DataId::try_create("da-06cf1d26-0ef0-4b03-aca6-933027d434c2").unwrap();
    let request = build_redirect_request(&params, &data_id, 20000);
    let gateway_core::entity::Request::Data(gateway_core::entity::DataRequest::Redirect {
        params: built,
    }) = request
    else {
        panic!("the built request must be a data redirect");
    };
    assert_eq!(built.data_connection_id.as_str(), "dc-8bdef7a1-65c8-46be-a82e-37d51c776309");
    assert_eq!(
        built.feed_params,
        Some(DataIdWrapper {
            data_id: DataId::try_create("da-06cf1d26-0ef0-4b03-aca6-933027d434c2").unwrap()
        })
    );
    let target = built.redirect_params.unwrap();
    assert_eq!(target.id, None);
    assert_eq!(target.ip, "127.0.0.1");
    assert_eq!(target.port, 20000);
}

#[test]
fn topic_name_replaces_every_dash() {
    let name = topic_name_from("da-06cf1d26-0ef0-4b03-aca6-933027d434c2");
    assert_eq!(name, "da_06cf1d26_0ef0_4b03_aca6_933027d434c2");
    assert!(!name.contains('-'));
    assert_eq!(topic_name_from("plain"), "plain");
    assert_eq!(topic_name_from(""), "");
}

#[test]
fn data_connection_id_requires_its_prefix() {
    assert!(DataConnectionId::try_create("dc-abc").is_ok());
    assert!(matches!(
        DataConnectionId::try_create("da-abc"),
        Err(Error::Local(_))
    ));
    assert!(DataId::try_create("da-abc").is_ok());
    assert!(DataId::try_create("dc").is_err());
}

#[test]
fn dispatch_selects_by_tag_alone() {
    let redirect = RequestDto::Data(DataRequestDto::Redirect {
        params: RedirectDtoParams {
            data_connection_id: dc_id("dc-8bdef7a1-65c8-46be-a82e-37d51c776309"),
            destination_topic: String::from("t"),
        },
    });
    assert_eq!(create_service(&redirect), ServiceKind::DataRedirect);
    assert_eq!(
        create_service(&RequestDto::Data(DataRequestDto::Create)),
        ServiceKind::General
    );
    assert_eq!(
        create_service(&RequestDto::Peer(gateway_core::dto::PeerRequestDto::Create {
            params: PeerInfo {
                peer_id: String::from("p"),
                token: String::from("pt-1"),
            }
        })),
        ServiceKind::General
    );
}

#[test]
fn data_close_is_idempotent_and_always_notifies() {
    let mut reactor = EventReceiveImpl::new();
    reactor.registry.store_topic(gateway_core::dto::DataConnectionResponse {
        data_connection_id: dc_id("dc-4995f372-fb6a-4196-b30a-ce11e5c7f56c"),
        source_topic_name: String::from("da_x"),
        source_ip: String::from("127.0.0.1"),
        source_port: 10000,
        destination_topic_name: String::from("destination_topic"),
    });

    let close = |id: &str| {
        DataResponse::Event(DataConnectionEventEnum::CLOSE(DataConnectionIdWrapper {
            data_connection_id: dc_id(id),
        }))
    };

    let first = reactor
        .process_data_event(close("dc-4995f372-fb6a-4196-b30a-ce11e5c7f56c"))
        .unwrap();
    assert_eq!(
        first.deleted,
        Some(dc_id("dc-4995f372-fb6a-4196-b30a-ce11e5c7f56c"))
    );

    // the second close is a no-op, not an error, and still notifies
    let second = reactor
        .process_data_event(close("dc-4995f372-fb6a-4196-b30a-ce11e5c7f56c"))
        .unwrap();
    assert_eq!(
        second.deleted,
        Some(dc_id("dc-4995f372-fb6a-4196-b30a-ce11e5c7f56c"))
    );

    let key = dc_id("dc-4995f372-fb6a-4196-b30a-ce11e5c7f56c");
    assert!(reactor.registry.find_topic(&key).is_none());
}

#[test]
fn data_open_without_redirect_is_a_local_error() {
    let mut reactor = EventReceiveImpl::new();
    let open = DataResponse::Event(DataConnectionEventEnum::OPEN(DataConnectionIdWrapper {
        data_connection_id: dc_id("dc-8bdef7a1-65c8-46be-a82e-37d51c776309"),
    }));
    let result = reactor.process_data_event(open);
    match result {
        Err(Error::Local(message)) => {
            assert!(message.contains("dc-8bdef7a1-65c8-46be-a82e-37d51c776309"));
        }
        other => panic!("a local error was expected, not {:?}", other),
    }
}

#[test]
fn data_open_echoes_the_registered_connection() {
    let mut reactor = EventReceiveImpl::new();
    reactor.registry.store_topic(gateway_core::dto::DataConnectionResponse {
        data_connection_id: dc_id("dc-4995f372-fb6a-4196-b30a-ce11e5c7f56c"),
        source_topic_name: String::from("da_x"),
        source_ip: String::from("127.0.0.1"),
        source_port: 10000,
        destination_topic_name: String::from("destination_topic"),
    });
    let open = DataResponse::Event(DataConnectionEventEnum::OPEN(DataConnectionIdWrapper {
        data_connection_id: dc_id("dc-4995f372-fb6a-4196-b30a-ce11e5c7f56c"),
    }));
    let outcome = reactor.process_data_event(open).unwrap();
    assert_eq!(
        outcome.dto,
        DataResponseDto::Event(DataConnectionEventEnum::OPEN(DataConnectionIdWrapper {
            data_connection_id: dc_id("dc-4995f372-fb6a-4196-b30a-ce11e5c7f56c"),
        }))
    );
    assert_eq!(outcome.deleted, None);
}

#[test]
fn peer_connection_event_composes_the_fetched_status() {
    let connection = PeerConnectionEvent {
        params: PeerInfo {
            peer_id: String::from("hoge"),
            token: String::from("pt-9749250e-d157-4f80-9ee2-359ce8524308"),
        },
        data_params: DataConnectionIdWrapper {
            data_connection_id: dc_id("dc-4995f372-fb6a-4196-b30a-ce11e5c7f56c"),
        },
    };
    let status = DataConnectionStatus {
        remote_id: String::from("hoge"),
        is_open: true,
        reliable: true,
        metadata: String::from("meta"),
    };
    let nested = Ok(ResponseDtoResult::Success(ResponseDto::Data(
        DataResponseDto::Status(status.clone()),
    )));

    let composed =
        gateway_core::event::peer_connection_compose(connection.clone(), nested).unwrap();
    let PeerResponseDto::Event(PeerEventEnumDto::CONNECTION(dto)) = composed else {
        panic!("a composed connection event was expected");
    };
    // exactly the original params, the original data_params, and the status
    assert_eq!(dto.params, connection.params);
    assert_eq!(dto.data_params, connection.data_params);
    assert_eq!(dto.status, status);
}

#[test]
fn peer_connection_composition_fails_when_the_fetch_fails() {
    let connection = PeerConnectionEvent {
        params: PeerInfo {
            peer_id: String::from("hoge"),
            token: String::from("pt-1"),
        },
        data_params: DataConnectionIdWrapper {
            data_connection_id: dc_id("dc-4995f372-fb6a-4196-b30a-ce11e5c7f56c"),
        },
    };
    let nested = Ok(ResponseDtoResult::Error(String::from("boom")));
    let result = gateway_core::event::peer_connection_compose(connection, nested);
    match result {
        Err(Error::Local(message)) => {
            assert!(message.contains("hoge"));
        }
        other => panic!("a local error was expected, not {:?}", other),
    }
}

#[test]
fn peer_close_schedules_the_shutdown() {
    let reactor = EventReceiveImpl::new();
    let info = PeerInfo {
        peer_id: String::from("hoge"),
        token: String::from("pt-1"),
    };
    let action =
        reactor.process_peer_event(PeerResponse::Event(PeerEventEnum::CLOSE(info.clone())));
    assert_eq!(
        action,
        PeerEventAction::ReplyAndScheduleShutdown(PeerResponseDto::Event(
            PeerEventEnumDto::CLOSE(info)
        ))
    );

    let open_info = PeerInfo {
        peer_id: String::from("hoge"),
        token: String::from("pt-1"),
    };
    let action = reactor
        .process_peer_event(PeerResponse::Event(PeerEventEnum::OPEN(open_info.clone())));
    assert_eq!(
        action,
        PeerEventAction::Reply(PeerResponseDto::Event(PeerEventEnumDto::OPEN(open_info)))
    );
}

#[test]
fn request_round_trip_for_each_data_command() {
    let commands = vec![
        RequestDto::Data(DataRequestDto::Create),
        RequestDto::Data(DataRequestDto::Connect {
            params: DataConnectionIdWrapper {
                data_connection_id: dc_id("dc-4995f372-fb6a-4196-b30a-ce11e5c7f56c"),
            },
        }),
        RequestDto::Data(DataRequestDto::Redirect {
            params: RedirectDtoParams {
                data_connection_id: dc_id("dc-8bdef7a1-65c8-46be-a82e-37d51c776309"),
                destination_topic: String::from("destination_topic"),
            },
        }),
        RequestDto::Peer(gateway_core::dto::PeerRequestDto::Create {
            params: PeerInfo {
                peer_id: String::from("hoge"),
                token: String::from("pt-1"),
            },
        }),
        RequestDto::Media(gateway_core::dto::MediaRequestDto::Call {
            params: MediaConnectionIdWrapper {
                media_connection_id: MediaConnectionId {
                    id: String::from("mc-1"),
                },
            },
        }),
    ];
    for request in commands {
        let doc = request.to_json();
        assert_eq!(RequestDto::from_json(&doc).unwrap(), request);
    }
}

#[test]
fn envelope_round_trip_for_success_and_error() {
    let envelopes = vec![
        ResponseDtoResult::Success(ResponseDto::Data(DataResponseDto::Redirect(
            DataConnectionIdWrapper {
                data_connection_id: dc_id("dc-4995f372-fb6a-4196-b30a-ce11e5c7f56c"),
            },
        ))),
        ResponseDtoResult::Success(ResponseDto::Peer(PeerResponseDto::Event(
            PeerEventEnumDto::CONNECTION(gateway_core::dto::PeerConnectionEventDto {
                params: PeerInfo {
                    peer_id: String::from("hoge"),
                    token: String::from("pt-1"),
                },
                data_params: DataConnectionIdWrapper {
                    data_connection_id: dc_id("dc-4995f372-fb6a-4196-b30a-ce11e5c7f56c"),
                },
                status: DataConnectionStatus {
                    remote_id: String::from("hoge"),
                    is_open: true,
                    reliable: false,
                    metadata: String::from(""),
                },
            }),
        ))),
        ResponseDtoResult::Success(ResponseDto::Media(MediaResponseDto::ContentCreate(
            SocketInfo {
                id: Some(gateway_core::entity::MediaId {
                    id: String::from("vi-1"),
                }),
                ip: String::from("127.0.0.1"),
                port: 10001,
            },
        ))),
        ResponseDtoResult::Success(ResponseDto::Media(MediaResponseDto::RtcpCreate(
            SocketInfo {
                id: Some(gateway_core::entity::RtcpId {
                    id: String::from("rc-1"),
                }),
                ip: String::from("127.0.0.1"),
                port: 10002,
            },
        ))),
        ResponseDtoResult::Success(ResponseDto::Media(MediaResponseDto::Event(
            gateway_core::entity::MediaConnectionEventEnum::READY(MediaConnectionIdWrapper {
                media_connection_id: MediaConnectionId {
                    id: String::from("mc-1"),
                },
            }),
        ))),
        ResponseDtoResult::Success(ResponseDto::Data(DataResponseDto::Event(
            DataConnectionEventEnum::ERROR(gateway_core::entity::DataConnectionErrorEvent {
                data_connection_id: dc_id("dc-4995f372-fb6a-4196-b30a-ce11e5c7f56c"),
                error_message: String::from("boom"),
            }),
        ))),
        ResponseDtoResult::Success(ResponseDto::Peer(PeerResponseDto::Status(
            gateway_core::entity::PeerStatusMessage {
                peer_id: String::from("hoge"),
                disconnected: false,
            },
        ))),
        ResponseDtoResult::Success(ResponseDto::Data(DataResponseDto::Status(
            DataConnectionStatus {
                remote_id: String::from("hoge"),
                is_open: true,
                reliable: true,
                metadata: String::from("m"),
            },
        ))),
        ResponseDtoResult::Success(ResponseDto::Data(DataResponseDto::Delete(DataIdWrapper {
            data_id: DataId::try_create("da-06cf1d26-0ef0-4b03-aca6-933027d434c2").unwrap(),
        }))),
        ResponseDtoResult::Error(String::from("boom")),
    ];
    for envelope in envelopes {
        let doc = envelope.to_json();
        assert_eq!(ResponseDtoResult::from_json(&doc).unwrap(), envelope);
    }
}

#[test]
fn entity_responses_cast_to_their_host_form() {
    let media = MediaResponse::Call(MediaConnectionIdWrapper {
        media_connection_id: MediaConnectionId {
            id: String::from("mc-1"),
        },
    });
    assert_eq!(
        MediaResponseDto::from_entity(media),
        MediaResponseDto::Call(MediaConnectionIdWrapper {
            media_connection_id: MediaConnectionId {
                id: String::from("mc-1"),
            },
        })
    );

    let data = DataResponse::Redirect(DataConnectionIdWrapper {
        data_connection_id: dc_id("dc-4995f372-fb6a-4196-b30a-ce11e5c7f56c"),
    });
    assert_eq!(
        DataResponseDto::from_entity(data),
        DataResponseDto::Redirect(DataConnectionIdWrapper {
            data_connection_id: dc_id("dc-4995f372-fb6a-4196-b30a-ce11e5c7f56c"),
        })
    );

    let peer = PeerResponse::Event(PeerEventEnum::OPEN(PeerInfo {
        peer_id: String::from("hoge"),
        token: String::from("pt-1"),
    }));
    assert_eq!(
        PeerResponseDto::from_entity(peer),
        PeerResponseDto::Event(PeerEventEnumDto::OPEN(PeerInfo {
            peer_id: String::from("hoge"),
            token: String::from("pt-1"),
        }))
    );
}

#[test]
fn decode_reports_each_error_kind() {
    // not an object at all
    assert_eq!(
        RequestDto::from_json(&JsonValue::Bool(true)),
        Err(Error::Decode(DecodeErrorKind::MalformedJson))
    );
    // an object without the envelope fields
    assert_eq!(
        ResponseDtoResult::from_json(&obj(vec![("unrelated", JsonValue::Null)])),
        Err(Error::Decode(DecodeErrorKind::MissingField))
    );
    // a well-shaped document with an unknown domain tag
    let unknown = obj(vec![
        ("type", text("BULK")),
        ("command", text("CREATE")),
        ("params", JsonValue::Null),
    ]);
    assert_eq!(
        RequestDto::from_json(&unknown),
        Err(Error::Decode(DecodeErrorKind::UnknownTag))
    );
    // a known domain with an unknown command tag
    let unknown_command = obj(vec![
        ("type", text("DATA")),
        ("command", text("EXPLODE")),
        ("params", JsonValue::Null),
    ]);
    assert_eq!(
        RequestDto::from_json(&unknown_command),
        Err(Error::Decode(DecodeErrorKind::UnknownTag))
    );
    // a wrong payload type inside a known command
    let wrong_payload = obj(vec![
        ("type", text("DATA")),
        ("command", text("CONNECT")),
        ("params", text("unexpected")),
    ]);
    assert_eq!(
        RequestDto::from_json(&wrong_payload),
        Err(Error::Decode(DecodeErrorKind::MalformedJson))
    );
}

#[test]
fn envelope_members_decode_in_any_order_and_extras_are_ignored() {
    let reordered = obj(vec![
        ("result", text("boom")),
        ("is_success", JsonValue::Bool(false)),
    ]);
    assert_eq!(
        ResponseDtoResult::from_json(&reordered).unwrap(),
        ResponseDtoResult::Error(String::from("boom"))
    );

    let with_extra = obj(vec![
        ("is_success", JsonValue::Bool(false)),
        ("result", text("boom")),
        ("extra", JsonValue::Null),
    ]);
    assert_eq!(
        ResponseDtoResult::from_json(&with_extra).unwrap(),
        ResponseDtoResult::Error(String::from("boom"))
    );

    let success_reordered = obj(vec![
        (
            "result",
            obj(vec![
                ("command", text("REDIRECT")),
                ("data_connection_id", text("dc-4995f372-fb6a-4196-b30a-ce11e5c7f56c")),
                ("type", text("DATA")),
            ]),
        ),
        ("is_success", JsonValue::Bool(true)),
    ]);
    assert_eq!(
        ResponseDtoResult::from_json(&success_reordered).unwrap(),
        ResponseDtoResult::Success(ResponseDto::Data(DataResponseDto::Redirect(
            DataConnectionIdWrapper {
                data_connection_id: dc_id("dc-4995f372-fb6a-4196-b30a-ce11e5c7f56c"),
            }
        )))
    );
}

#[test]
fn request_members_decode_in_any_order_and_extras_are_ignored() {
    let reordered = obj(vec![
        (
            "params",
            obj(vec![
                ("destination_topic", text("destination_topic")),
                ("data_connection_id", text("dc-8bdef7a1-65c8-46be-a82e-37d51c776309")),
                ("note", text("ignored")),
            ]),
        ),
        ("command", text("REDIRECT")),
        ("type", text("DATA")),
        ("extra", JsonValue::UInt(7)),
    ]);
    let expected = RequestDto::Data(DataRequestDto::Redirect {
        params: RedirectDtoParams {
            data_connection_id: dc_id("dc-8bdef7a1-65c8-46be-a82e-37d51c776309"),
            destination_topic: String::from("destination_topic"),
        },
    });
    assert_eq!(RequestDto::from_json(&reordered).unwrap(), expected);
}

#[test]
fn repeated_member_names_take_the_first_occurrence() {
    let doubled = obj(vec![
        ("is_success", JsonValue::Bool(false)),
        ("result", text("first")),
        ("result", text("second")),
    ]);
    assert_eq!(
        ResponseDtoResult::from_json(&doubled).unwrap(),
        ResponseDtoResult::Error(String::from("first"))
    );
}

#[test]
fn data_create_request_needs_no_params_member() {
    let bare = obj(vec![("type", text("DATA")), ("command", text("CREATE"))]);
    assert_eq!(
        RequestDto::from_json(&bare).unwrap(),
        RequestDto::Data(DataRequestDto::Create)
    );
    // a params member a parameterless command does not read is passed over
    let with_params = obj(vec![
        ("type", text("DATA")),
        ("command", text("CREATE")),
        ("params", JsonValue::Null),
    ]);
    assert_eq!(
        RequestDto::from_json(&with_params).unwrap(),
        RequestDto::Data(DataRequestDto::Create)
    );
    // a command that does read its params still reports an absent one
    let connect_without = obj(vec![("type", text("DATA")), ("command", text("CONNECT"))]);
    assert_eq!(
        RequestDto::from_json(&connect_without),
        Err(Error::Decode(DecodeErrorKind::MissingField))
    );
}

#[test]
fn response_documents_carry_payload_members_beside_the_tags() {
    // the tagged-union wire form: payload members sit in the same
    // object as the two tags, with no params member
    let flat = obj(vec![
        ("is_success", JsonValue::Bool(true)),
        (
            "result",
            obj(vec![
                ("type", text("DATA")),
                ("command", text("REDIRECT")),
                ("data_connection_id", text("dc-4995f372-fb6a-4196-b30a-ce11e5c7f56c")),
            ]),
        ),
    ]);
    assert_eq!(
        ResponseDtoResult::from_json(&flat).unwrap(),
        ResponseDtoResult::Success(ResponseDto::Data(DataResponseDto::Redirect(
            DataConnectionIdWrapper {
                data_connection_id: dc_id("dc-4995f372-fb6a-4196-b30a-ce11e5c7f56c"),
            }
        )))
    );

    let create = obj(vec![
        ("is_success", JsonValue::Bool(true)),
        (
            "result",
            obj(vec![
                ("type", text("DATA")),
                ("command", text("CREATE")),
                ("id", text("da-06cf1d26-0ef0-4b03-aca6-933027d434c2")),
                ("ip", text("127.0.0.1")),
                ("port", JsonValue::UInt(10000)),
            ]),
        ),
    ]);
    assert_eq!(
        ResponseDtoResult::from_json(&create).unwrap(),
        ResponseDtoResult::Success(ResponseDto::Data(DataResponseDto::Create(SocketInfo {
            id: Some(DataId::try_create("da-06cf1d26-0ef0-4b03-aca6-933027d434c2").unwrap()),
            ip: String::from("127.0.0.1"),
            port: 10000,
        })))
    );
}

#[test]
fn error_envelope_serializes_to_exactly_the_two_members() {
    let doc = ResponseDtoResult::Error(String::from("boom")).to_json();
    assert_eq!(
        doc,
        obj(vec![
            ("is_success", JsonValue::Bool(false)),
            ("result", text("boom")),
        ])
    );
}

#[test]
fn success_envelope_serializes_to_exactly_the_two_members() {
    let doc = ResponseDtoResult::Success(ResponseDto::Data(DataResponseDto::Redirect(
        DataConnectionIdWrapper {
            data_connection_id: dc_id("dc-4995f372-fb6a-4196-b30a-ce11e5c7f56c"),
        },
    )))
    .to_json();
    assert_eq!(
        doc,
        obj(vec![
            ("is_success", JsonValue::Bool(true)),
            (
                "result",
                obj(vec![
                    ("data_connection_id", text("dc-4995f372-fb6a-4196-b30a-ce11e5c7f56c")),
                    ("type", text("DATA")),
                    ("command", text("REDIRECT")),
                ]),
            ),
        ])
    );
}
