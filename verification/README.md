# leap

The verified core of the LEAP server (Low-Bandwidth Educational Access
Platform) and of its two web front ends, written in Verus.

- `src/` is the library. Every function in it carries a contract that Verus
  proves: decoding rows of the video table, build metadata, the file backend
  of the downloader, the decisions of the time synchronisation check and of
  the content event loop, the routing of the provisioning site and of the
  main site, and the state machine of software updates.
- `tests/` runs the library on concrete values.
- `app/` holds what does input and output or needs other crates' traits and
  derives: the asynchronous file backend, the diesel mapping, the logging
  setup, the event task, the time synchronisation polling, and the router
  and redirect hook of the sites. It calls the library for every decision.
