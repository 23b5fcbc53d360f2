//! Game logic of the Dune engine: the Creative Voice File reader, the troop
//! simulation, the map and travel geometry, the troop icon list, the talking
//! head zoom sequencer and the HUD head fold animation.
pub mod voc;
pub mod world;
pub mod game;
pub mod troop_condit;
pub mod troop_occupation;
pub mod troop_moves;
pub mod troop_travel;
pub mod compass;
pub mod map_travel;
pub mod zoom;
pub mod troop_icons;
pub mod hud_head;
pub mod troop_map;
pub mod laws;
pub mod map_panels;
pub mod map_menus;
pub mod map_cells;
pub mod map_window;
pub mod map_text;
pub mod map_mouse;
pub mod map_effects;
pub mod troop_contact;
