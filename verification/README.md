# bolt_bevy

Jolt Physics integration for the Bevy engine.

- `src/` is the verified library: the collision-layer rules and their
  consistency laws (`layers`), body ids, body kinds and the settings a new
  body gets (`body`), the entity/body registry with its read-after-write laws
  (`registry`), and the decisions of the spawn and transform-sync systems
  (`systems`).
- `app/` is the Bevy plugin, components, resources and systems, and the
  `PhysicsWorld` that drives Jolt through its C interface; it calls the
  library for every decision above.
