pub mod seqs;
pub mod text;
pub mod rng;
pub mod progression;
pub mod rewards;
pub mod product_service;
pub mod gear;
pub mod roster;
pub mod contracts;
pub mod catalog;
pub mod building_domain;
pub mod presentation;
pub mod trading_post;
pub mod session;
pub mod persistence;
pub mod session_restore;
pub mod session_services;
pub mod healing;
pub mod ids;
pub mod session_commands;
pub mod session_runtime;
pub mod session_trade;
pub mod web_rebuild_gear;
pub mod session_crafting;
pub mod session_settlement;
pub mod session_auto_trade;
pub mod material_catalog;
pub mod session_shop;
pub mod session_buildings;
pub mod building_projection;
pub mod infirmary_plans;
pub mod material_requests;
pub mod session_enhancement;
pub mod session_unbound;
pub mod village_projection;
pub mod hunter_projection;
pub mod session_banish;
